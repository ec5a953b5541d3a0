//! Events as a relay delivers them, and what a client makes of them.
use vstd::prelude::*;
use crate::keys::{tag_texts, PublicKey};
use crate::text::{same, texts};

verus! {

/// An event that a relay delivered, as far as a client reads it.
pub struct Incoming {
    /// Its kind.
    pub kind: u16,
    /// Its author.
    pub author: PublicKey,
    /// Its tags.
    pub tags: Vec<Vec<String>>,
    /// Its content, sealed for the client.
    pub content: String,
}

/// What one turn of waiting brought.
pub enum Heard {
    /// The deadline had passed before the turn began.
    Late,
    /// The turn ran into the deadline.
    Elapsed,
    /// The stream brought something that is no event, or had ended.
    Other,
    /// The stream brought an event.
    Event(Incoming),
}

/// What the stream of deliveries brought.
pub enum Signal {
    /// It ended.
    Ended,
    /// Something that is no event.
    Other,
    /// An event.
    Event(Incoming),
}

/// What a client asks a relay for: events of a kind, addressed to a key, from now on.
pub struct Filter {
    /// The kind.
    pub kind: u16,
    /// The key that the events are addressed to.
    pub to: PublicKey,
}

/// Whether a tag points at an event.
pub open spec fn points_at(tag: Seq<Seq<char>>, id: Seq<char>) -> bool {
    tag.len() >= 2 && tag[0] == "e"@ && tag[1] == id
}

/// Whether some tag points at an event.
pub open spec fn any_points_at(tags: Seq<Seq<Seq<char>>>, id: Seq<char>) -> bool {
    exists|i: int| 0 <= i < tags.len() && points_at(#[trigger] tags[i], id)
}

impl Incoming {
    /// Whether the event is of a kind and by an author.
    pub open spec fn is_from(&self, kind: u16, author: Seq<u8>) -> bool {
        self.kind == kind && self.author@ == author
    }

    /// Whether the event answers a request: of the kind of answers, by the service, and tagged
    /// with the id of the request.
    pub open spec fn is_answer(&self, kind: u16, author: Seq<u8>, request: Seq<char>) -> bool {
        self.is_from(kind, author) && any_points_at(tag_texts(self.tags@), request)
    }

    /// Tells whether the event is of a kind and by an author.
    pub fn came_from(&self, kind: u16, author: &PublicKey) -> (r: bool)
        ensures
            r == self.is_from(kind, author@),
    {
        self.kind == kind && self.author.same(author)
    }

    /// Tells whether some tag of the event points at the event with this id.
    pub fn replies_to(&self, request: &str) -> (r: bool)
        ensures
            r == any_points_at(tag_texts(self.tags@), request@),
    {
        let ghost all = tag_texts(self.tags@);
        let mut i: usize = 0;
        while i < self.tags.len()
            invariant
                i <= self.tags@.len(),
                all == tag_texts(self.tags@),
                forall|j: int| 0 <= j < i ==> !points_at(#[trigger] all[j], request@),
            decreases self.tags.len() - i,
        {
            let tag: &Vec<String> = &self.tags[i];
            assert(all[i as int] == texts(tag@));
            if tag.len() >= 2 && same(tag[0].as_str(), "e") && same(tag[1].as_str(), request) {
                assert(points_at(all[i as int], request@));
                return true;
            }
            i += 1;
        }
        false
    }

    /// Tells whether the event answers a request.
    pub fn answers(&self, kind: u16, author: &PublicKey, request: &str) -> (r: bool)
        ensures
            r == self.is_answer(kind, author@, request@),
    {
        self.came_from(kind, author) && self.replies_to(request)
    }
}

} // verus!
