//! Arguments of the HTTP helpers: `KEY:VALUE` pairs for headers, queries and
//! form fields.
use vstd::prelude::*;
use crate::text::copy_str;

verus! {

/// Why an argument is not a `KEY:VALUE` pair.
#[derive(Debug)]
pub enum CurlError {
    /// The argument, which has no `:`.
    KvFormat(String),
}

/// A key and a value, written `KEY:VALUE`.
#[derive(Debug)]
pub struct CurlKV {
    pub key: String,
    pub value: String,
}

/// `i` is the position of the first `:` in `s`.
pub open spec fn first_colon_at(s: Seq<char>, i: int) -> bool {
    0 <= i < s.len() && s[i] == ':' && forall|k: int| 0 <= k < i ==> s[k] != ':'
}

impl CurlKV {
    /// Splits `s` at its first `:` into key and value; an argument without
    /// `:` is an error that carries it.
    pub fn parse(s: &str) -> (r: Result<CurlKV, CurlError>)
        ensures
            match r {
                Ok(kv) => exists|i: int|
                    first_colon_at(s@, i) && kv.key@ == s@.subrange(0, i) && kv.value@
                        == s@.subrange(i + 1, s@.len() as int),
                Err(CurlError::KvFormat(t)) => t@ == s@ && forall|k: int|
                    0 <= k < s@.len() ==> s@[k] != ':',
            },
    {
        let n = s.unicode_len();
        let mut i: usize = 0;
        while i < n
            invariant
                n == s@.len(),
                i <= n,
                forall|k: int| 0 <= k < i ==> s@[k] != ':',
            decreases n - i,
        {
            if s.get_char(i) == ':' {
                let key = copy_str(s.substring_char(0, i));
                let value = copy_str(s.substring_char(i + 1, n));
                assert(first_colon_at(s@, i as int));
                return Ok(CurlKV { key, value });
            }
            i = i + 1;
        }
        Err(CurlError::KvFormat(copy_str(s)))
    }
}

impl std::str::FromStr for CurlKV {
    type Err = CurlError;

    fn from_str(s: &str) -> Result<CurlKV, CurlError> {
        CurlKV::parse(s)
    }
}

} // verus!
