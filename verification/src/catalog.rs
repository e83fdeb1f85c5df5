//! The response catalog: the canned phrases the bot answers with, and the
//! random selection of one phrase from a list.
//!
//! Loading the catalog from its backing file is I/O and stays outside this
//! crate; the types here hold the loaded data, and the picks are verified
//! to return only phrases that the catalog actually contains.

use vstd::prelude::*;

verus! {

/// The yes/no answer options offered by the recurring poll.
pub struct PollOptions {
    /// Phrases standing for "yes".
    pub ja: Vec<String>,
    /// Phrases standing for "no".
    pub nein: Vec<String>,
}

/// Canned phrases for announcing a match outcome.
pub struct MatchOptions {
    /// Phrases for a won match.
    pub win: Vec<String>,
    /// Phrases for a lost match.
    pub lose: Vec<String>,
}

/// Canned verbs describing a performance, grouped by intensity tier.
pub struct PerformanceVerbs {
    pub first: Vec<String>,
    pub second: Vec<String>,
    pub third: Vec<String>,
    pub fourth: Vec<String>,
    pub fifth: Vec<String>,
    pub inf: Vec<String>,
}

/// The whole catalog of canned phrases, as loaded from the backing data
/// source. Only `dodo_poll` is read by the core logic.
pub struct Punlines {
    /// The yes/no options of the recurring poll.
    pub dodo_poll: PollOptions,
    /// Phrases about match outcomes (unused by the core logic).
    pub match_outcome: MatchOptions,
    /// Phrases about performances (unused by the core logic).
    pub performance_verbs: PerformanceVerbs,
}

/// Why an operation that needs the catalog could not be served.
#[derive(Clone, Copy, Debug, PartialEq, Eq, Structural)]
pub enum DataError {
    /// The backing data source could not be read.
    Unavailable,
    /// The backing data source does not have the expected structure.
    Malformed,
    /// The list a phrase was to be picked from is empty.
    EmptyCatalog,
}

/// Whether some string of `list` reads as `s`.
pub open spec fn in_list(list: Seq<String>, s: Seq<char>) -> bool {
    exists|i: int| 0 <= i < list.len() && list[i]@ == s
}

/// Relies on rand::random_range: a uniformly random integer below `n`,
/// drawn from the thread-local generator; it panics only when the range
/// is empty, which the precondition rules out.
#[verifier::external_body]
fn random_below(n: usize) -> (r: usize)
    requires
        n > 0,
    ensures
        r < n,
{
    rand::random_range(0..n)
}

/// Picks one phrase of `list` at random. Fails exactly when the list is
/// empty; a picked phrase is always one of the list, and a one-phrase
/// list always yields that phrase.
fn pick_from(list: &Vec<String>) -> (r: Result<String, DataError>)
    ensures
        r is Ok <==> list@.len() > 0,
        (r matches Ok(s) ==> in_list(list@, s@)),
        (r matches Err(e) ==> e == DataError::EmptyCatalog),
        list@.len() == 1 ==> (r matches Ok(s) && s@ == list@[0]@),
{
    if list.len() == 0 {
        Err(DataError::EmptyCatalog)
    } else {
        let i = random_below(list.len());
        let s = list[i].clone();
        proof {
            assert(list@[i as int]@ == s@);
        }
        Ok(s)
    }
}

impl PollOptions {
    /// Picks one "yes" phrase at random: a phrase of `ja`, and the only
    /// one deterministically if `ja` has a single entry. Fails with
    /// `EmptyCatalog` exactly when `ja` is empty.
    pub fn pick_yes(&self) -> (r: Result<String, DataError>)
        ensures
            r is Ok <==> self.ja@.len() > 0,
            (r matches Ok(s) ==> in_list(self.ja@, s@)),
            (r matches Err(e) ==> e == DataError::EmptyCatalog),
            self.ja@.len() == 1 ==> (r matches Ok(s) && s@ == self.ja@[0]@),
    {
        pick_from(&self.ja)
    }

    /// Picks one "no" phrase at random: a phrase of `nein`, and the only
    /// one deterministically if `nein` has a single entry. Fails with
    /// `EmptyCatalog` exactly when `nein` is empty.
    pub fn pick_no(&self) -> (r: Result<String, DataError>)
        ensures
            r is Ok <==> self.nein@.len() > 0,
            (r matches Ok(s) ==> in_list(self.nein@, s@)),
            (r matches Err(e) ==> e == DataError::EmptyCatalog),
            self.nein@.len() == 1 ==> (r matches Ok(s) && s@ == self.nein@[0]@),
    {
        pick_from(&self.nein)
    }
}

} // verus!
