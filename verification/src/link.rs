//! Reaching the relays of a connection: each is added, in order, and then all are connected to.
use vstd::prelude::*;

verus! {

/// What is to be done next to reach the relays.
#[derive(Clone, Copy, Debug, PartialEq, Eq, Structural)]
pub enum Dial {
    /// Add the relay at this place of the list.
    Add(usize),
    /// Connect to the relays that were added.
    Connect,
    /// Nothing: the relays are connected.
    Ready,
}

/// What came of it.
pub enum Dialed {
    /// The relay was added.
    Added,
    /// The relay was not added; the text says why.
    Refused(String),
    /// The relays are connected.
    Connected,
}

/// What comes after `added` relays of `relays` were added.
pub open spec fn dial_from(added: int, relays: int) -> Dial {
    if added < relays {
        Dial::Add(added as usize)
    } else {
        Dial::Connect
    }
}

/// What comes first: nothing, where the relays are connected already.
pub fn dial(connected: bool, relays: usize) -> (r: Dial)
    ensures
        r == if connected {
            Dial::Ready
        } else {
            dial_from(0, relays as int)
        },
{
    if connected {
        Dial::Ready
    } else if relays > 0 {
        Dial::Add(0)
    } else {
        Dial::Connect
    }
}

/// What comes after a step, or the text of the failure that ends the attempt.
pub open spec fn redialed(at: Dial, heard: Dialed, relays: int) -> Result<Dial, Seq<char>> {
    match (at, heard) {
        (Dial::Add(i), Dialed::Added) => Ok(dial_from(i + 1, relays)),
        (Dial::Add(_), Dialed::Refused(e)) => Err(e@),
        (Dial::Connect, Dialed::Connected) => Ok(Dial::Ready),
        _ => Ok(at),
    }
}

/// Goes on after a step. What does not belong to the step changes nothing.
pub fn redial(at: Dial, heard: Dialed, relays: usize) -> (r: Result<Dial, String>)
    ensures
        match r {
            Ok(next) => redialed(at, heard, relays as int) == Ok::<Dial, Seq<char>>(next),
            Err(e) => redialed(at, heard, relays as int) == Err::<Dial, Seq<char>>(e@),
        },
{
    match (at, heard) {
        (Dial::Add(i), Dialed::Added) => if relays > 0 && i < relays - 1 {
            Ok(Dial::Add(i + 1))
        } else {
            Ok(Dial::Connect)
        },
        (Dial::Add(_), Dialed::Refused(e)) => Err(e),
        (Dial::Connect, Dialed::Connected) => Ok(Dial::Ready),
        _ => Ok(at),
    }
}

/// What is to be done after `n` relays were added without a failure.
pub open spec fn dial_after(n: nat, relays: int) -> Dial
    decreases n,
{
    if n == 0 {
        dial_from(0, relays)
    } else {
        match redialed(dial_after((n - 1) as nat, relays), Dialed::Added, relays) {
            Ok(next) => next,
            Err(_) => dial_after((n - 1) as nat, relays),
        }
    }
}

/// Each relay is added once and in order, and only then are they connected to.
pub proof fn law_every_relay_in_order(relays: usize)
    ensures
        forall|n: nat| n < relays ==> #[trigger] dial_after(n, relays as int) == Dial::Add(
            n as usize,
        ),
        dial_after(relays as nat, relays as int) == Dial::Connect,
        redialed(Dial::Connect, Dialed::Connected, relays as int) == Ok::<Dial, Seq<char>>(
            Dial::Ready,
        ),
{
    assert forall|n: nat| n <= relays implies #[trigger] dial_after(n, relays as int) == dial_from(
        n as int,
        relays as int,
    ) by {
        lemma_dial_after(n, relays);
    }
}

proof fn lemma_dial_after(n: nat, relays: usize)
    requires
        n <= relays,
    ensures
        dial_after(n, relays as int) == dial_from(n as int, relays as int),
    decreases n,
{
    if n > 0 {
        lemma_dial_after((n - 1) as nat, relays);
    }
}

/// A relay that is refused ends the attempt with what was said, at whichever place it stands; the
/// relays are connected to only when none is left; and what does not belong to a step changes
/// nothing.
pub proof fn law_refused_relay_ends_the_attempt(i: usize, why: String, relays: int)
    ensures
        redialed(Dial::Add(i), Dialed::Refused(why), relays) == Err::<Dial, Seq<char>>(why@),
        i + 1 < relays ==> redialed(Dial::Add(i), Dialed::Added, relays) == Ok::<Dial, Seq<char>>(
            Dial::Add((i + 1) as usize),
        ),
        i + 1 >= relays ==> redialed(Dial::Add(i), Dialed::Added, relays) == Ok::<Dial, Seq<char>>(
            Dial::Connect,
        ),
        redialed(Dial::Add(i), Dialed::Connected, relays) == Ok::<Dial, Seq<char>>(Dial::Add(i)),
        redialed(Dial::Connect, Dialed::Added, relays) == Ok::<Dial, Seq<char>>(Dial::Connect),
        forall|heard: Dialed| #[trigger]
            redialed(Dial::Ready, heard, relays) == Ok::<Dial, Seq<char>>(Dial::Ready),
{
}

} // verus!
