//! Small helpers shared by the flows.

use vstd::prelude::*;
use vstd::string::*;
use crate::types::ApplicationSecret;

verus! {

/// The character sequences of a slice of strings, in order.
pub open spec fn texts(pieces: Seq<&str>) -> Seq<Seq<char>> {
    pieces.map_values(|piece: &str| piece@)
}

/// The pieces in order, with one separator between each two neighbours.
pub open spec fn joined(pieces: Seq<Seq<char>>, separator: Seq<char>) -> Seq<char>
    decreases pieces.len(),
{
    if pieces.len() == 0 {
        Seq::empty()
    } else if pieces.len() == 1 {
        pieces[0]
    } else {
        joined(pieces.drop_last(), separator) + separator + pieces.last()
    }
}

/// The sum of the lengths of the pieces.
pub open spec fn total_len(pieces: Seq<Seq<char>>) -> nat
    decreases pieces.len(),
{
    if pieces.len() == 0 {
        0
    } else {
        total_len(pieces.drop_last()) + pieces.last().len()
    }
}

/// Concatenates the pieces, putting the separator between each two of them.
/// No piece gives the empty string; a single piece comes back unchanged.
pub fn join(pieces: &[&str], separator: &str) -> (result: String)
    ensures
        result@ == joined(texts(pieces@), separator@),
{
    let mut result = String::new();
    let mut i: usize = 0;
    while i < pieces.len()
        invariant
            i <= pieces.len(),
            result@ == joined(texts(pieces@).take(i as int), separator@),
        decreases pieces.len() - i,
    {
        let ghost before = texts(pieces@).take(i as int);
        let ghost after = texts(pieces@).take(i + 1);
        assert(after.drop_last() == before);
        assert(after.last() == pieces@[i as int]@);
        if i > 0 {
            result.append(separator);
        }
        result.append(pieces[i]);
        i += 1;
    }
    assert(texts(pieces@).take(pieces.len() as int) == texts(pieces@));
    result
}

/// A joined string is as long as its pieces together, plus one separator for
/// every piece after the first.
pub proof fn lemma_joined_len(pieces: Seq<Seq<char>>, separator: Seq<char>)
    ensures
        pieces.len() == 0 ==> joined(pieces, separator).len() == 0,
        pieces.len() > 0 ==> joined(pieces, separator).len() == total_len(pieces) + separator.len()
            * (pieces.len() - 1),
    decreases pieces.len(),
{
    if pieces.len() == 1 {
        assert(pieces.drop_last().len() == 0);
        assert(total_len(pieces) == pieces[0].len()) by {
            reveal_with_fuel(total_len, 2);
        }
    } else if pieces.len() > 1 {
        lemma_joined_len(pieces.drop_last(), separator);
        assert(separator.len() * (pieces.len() - 1) == separator.len() * (pieces.len() - 2)
            + separator.len()) by (nonlinear_arith)
            requires
                pieces.len() > 1,
        ;
    }
}

/// A file of application secrets, as the provider's console hands it out:
/// the secret stands under `web` or under `installed`.
#[derive(Debug, Clone, PartialEq, Eq)]
pub struct ConsoleApplicationSecret {
    pub web: Option<ApplicationSecret>,
    pub installed: Option<ApplicationSecret>,
}

impl ConsoleApplicationSecret {
    /// The secret that the file holds: the one under `web` where there is
    /// one, else the one under `installed`; `None` where the file holds
    /// neither.
    pub fn into_application_secret(self) -> (secret: Option<ApplicationSecret>)
        ensures
            secret == match self.web {
                Some(web) => Some(web),
                None => self.installed,
            },
    {
        match self.web {
            Some(web) => Some(web),
            None => self.installed,
        }
    }
}

} // verus!
