//! `key=value` body tokens.
//!
//! A POST body is given on the command line as a sequence of `key=value`
//! tokens. A token is split on the first `=`: the key is everything before
//! it and the value is everything after it, so the value may itself contain
//! further `=` characters. A token without any `=` is rejected.

use vstd::prelude::*;
use vstd::string::*;

use crate::error::HttpieError;

verus! {

/// One `key=value` pair of a POST body.
#[derive(Debug, Clone)]
pub struct KvPair {
    pub k: String,
    pub v: String,
}

/// `i` is the position of the first `=` in `s`.
pub open spec fn is_first_eq(s: Seq<char>, i: int) -> bool {
    &&& 0 <= i < s.len()
    &&& s[i] == '='
    &&& forall|j: int| 0 <= j < i ==> s[j] != '='
}

impl KvPair {
    /// Splits a token on its first `=` into a key/value pair.
    ///
    /// The key is the part before the first `=`, the value everything after
    /// it (which may contain further `=` characters). A token without `=`
    /// is rejected.
    pub fn parse(s: &str) -> (r: Result<KvPair, HttpieError>)
        ensures
            r is Err <==> (forall|j: int| 0 <= j < s@.len() ==> s@[j] != '='),
            r matches Err(e) ==> e == HttpieError::MalformedPair,
            forall|i: int| is_first_eq(s@, i) ==> {
                &&& r is Ok
                &&& r.unwrap().k@ == s@.subrange(0, i)
                &&& r.unwrap().v@ == s@.subrange(i + 1, s@.len() as int)
            },
    {
        let n = s.unicode_len();
        let mut i: usize = 0;
        while i < n
            invariant
                n == s@.len(),
                0 <= i <= n,
                forall|j: int| 0 <= j < i ==> s@[j] != '=',
            decreases n - i,
        {
            if s.get_char(i) == '=' {
                let k = s.substring_char(0, i).to_owned();
                let v = s.substring_char(i + 1, n).to_owned();
                return Ok(KvPair { k, v });
            }
            i = i + 1;
        }
        Err(HttpieError::MalformedPair)
    }
}

} // verus!
