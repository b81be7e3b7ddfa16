use vstd::prelude::*;

use crate::fs::Error;
use crate::points::{find_char, lemma_find_char_absent, lemma_find_char_found, lemma_find_char_is_first};
use crate::strutil::{all_digits, dec_val};

verus! {

/// The identifier a test directory's name denotes: the decimal value
/// after the name's first underscore, when everything after it is digits
/// and fits; nothing otherwise.
pub open spec fn parsed_test_dir_id(name: Seq<char>) -> Option<nat> {
    let u = find_char(name, '_');
    if u < 0 {
        None
    } else {
        let tail = name.subrange(u + 1, name.len() as int);
        if tail.len() > 0 && all_digits(tail) {
            Some(dec_val(tail))
        } else {
            None
        }
    }
}

/// Reads the test identifier out of a test directory's name: the decimal
/// number after the first underscore. A name without an underscore, with
/// anything but digits after it, or with a number too large to be an
/// identifier, denotes no test.
pub fn parse_test_dir_name(name: &str) -> (r: Option<u32>)
    ensures
        match parsed_test_dir_id(name@) {
            Some(v) => if v <= u32::MAX {
                r == Some(v as u32)
            } else {
                r is None
            },
            None => r is None,
        },
{
    let n = name.unicode_len();
    let mut under: usize = n;
    let mut i: usize = 0;
    while i < n
        invariant
            n == name@.len(),
            0 <= i <= n,
            under <= n,
            under == n ==> forall|k: int| 0 <= k < i ==> name@[k] != '_',
            under < n ==> name@[under as int] == '_' && under <= i && forall|k: int|
                0 <= k < under ==> name@[k] != '_',
        decreases n - i,
    {
        if under == n && name.get_char(i) == '_' {
            under = i;
        }
        i = i + 1;
    }
    if under == n {
        proof {
            lemma_find_char_absent(name@, '_');
        }
        return None;
    }
    proof {
        lemma_find_char_found(name@, '_', under as int);
        lemma_find_char_is_first(name@, '_');
        assert(find_char(name@, '_') == under as int);
    }
    match crate::points::parse_digits(name, under + 1, n) {
        Some(v) => {
            if v <= u32::MAX as u64 {
                Some(v as u32)
            } else {
                None
            }
        },
        None => {
            proof {
                let tail = name@.subrange(under + 1, n as int);
                if tail.len() > 0 && all_digits(tail) && dec_val(tail) <= u32::MAX {
                    assert(dec_val(tail) <= u64::MAX);
                }
            }
            None
        },
    }
}

/// Picks where a test resource comes from: the test's own directory
/// first, then the shared static directory; a resource in neither is not
/// found.
pub fn resolve_test_resource(
    from_test_dir: Option<String>,
    from_static_dir: Option<String>,
) -> (r: Result<String, Error>)
    ensures
        match from_test_dir {
            Some(p) => r == Ok::<String, Error>(p),
            None => match from_static_dir {
                Some(q) => r == Ok::<String, Error>(q),
                None => r == Err::<String, Error>(Error::NotFound),
            },
        },
{
    match from_test_dir {
        Some(p) => Ok(p),
        None => match from_static_dir {
            Some(q) => Ok(q),
            None => Err(Error::NotFound),
        },
    }
}

} // verus!
