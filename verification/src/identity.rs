//! Identity derivation: from an asset name to the asset identifier, the
//! owner identifier, and the processed-object name.

use vstd::prelude::*;
use vstd::string::*;

use crate::decode::DecodeError;

verus! {

/// The prefix of `s` standing before the first occurrence of `c`; the whole
/// of `s` when `c` does not occur.
pub open spec fn chop_at(s: Seq<char>, c: char) -> Seq<char>
    decreases s.len(),
{
    if s.len() == 0 {
        Seq::empty()
    } else if s[0] == c {
        Seq::empty()
    } else {
        seq![s[0]] + chop_at(s.drop_first(), c)
    }
}

/// The asset identifier: the asset name truncated at the first `.`.
pub open spec fn id_of(name: Seq<char>) -> Seq<char> {
    chop_at(name, '.')
}

/// The owner identifier: the asset identifier truncated at the first `-`.
pub open spec fn uid_of(name: Seq<char>) -> Seq<char> {
    chop_at(id_of(name), '-')
}

/// A name yields usable identifiers: both separators occur and neither
/// derived component is empty.
pub open spec fn valid_asset_name(name: Seq<char>) -> bool {
    &&& name.contains('.')
    &&& id_of(name).len() > 0
    &&& id_of(name).contains('-')
    &&& uid_of(name).len() > 0
}

/// The name under which the processed asset is published.
pub open spec fn processed_name_of(name: Seq<char>) -> Seq<char> {
    "processed-"@ + name
}

/// Position of the first occurrence of `c` in `s`, if any.
fn find_first(s: &str, c: char) -> (r: Option<usize>)
    ensures
        match r {
            Some(i) => {
                &&& i < s@.len()
                &&& s@[i as int] == c
                &&& s@.contains(c)
                &&& chop_at(s@, c) == s@.take(i as int)
            },
            None => {
                &&& !s@.contains(c)
                &&& chop_at(s@, c) == s@
            },
        },
{
    let n = s.unicode_len();
    let mut i: usize = 0;
    proof {
        assert(s@.skip(0) =~= s@);
        assert(s@.take(0) + chop_at(s@, c) =~= chop_at(s@, c));
    }
    while i < n
        invariant
            n == s@.len(),
            i <= n,
            forall|j: int| 0 <= j < i ==> s@[j] != c,
            chop_at(s@, c) == s@.take(i as int) + chop_at(s@.skip(i as int), c),
        decreases n - i,
    {
        let ch = s.get_char(i);
        if ch == c {
            proof {
                assert(s@.skip(i as int)[0] == s@[i as int]);
                assert(chop_at(s@.skip(i as int), c) == Seq::<char>::empty());
                assert(chop_at(s@, c) =~= s@.take(i as int));
            }
            return Some(i);
        }
        proof {
            let rest = s@.skip(i as int);
            assert(rest[0] == s@[i as int]);
            assert(chop_at(rest, c) == seq![rest[0]] + chop_at(rest.drop_first(), c));
            assert(rest.drop_first() =~= s@.skip(i as int + 1));
            assert(s@.take(i as int) + seq![s@[i as int]] =~= s@.take(i as int + 1));
            assert(s@.take(i as int) + (seq![rest[0]] + chop_at(rest.drop_first(), c)) =~= (
            s@.take(i as int) + seq![rest[0]]) + chop_at(rest.drop_first(), c));
        }
        i += 1;
    }
    proof {
        assert(s@.skip(n as int) =~= Seq::<char>::empty());
        assert(chop_at(s@, c) =~= s@.take(n as int) + Seq::<char>::empty());
        assert(s@.take(n as int) =~= s@);
        if s@.contains(c) {
            let w = choose|j: int| 0 <= j < s@.len() && s@[j] == c;
            assert(s@[w] != c);
        }
    }
    None
}

/// Derives `(id, uid)` from the asset name: the identifier is the name up to
/// the first `.`, the owner identifier the identifier up to the first `-`.
/// Rejected with `BadIdentifier` exactly when a separator is absent or a
/// derived component is empty.
pub fn derive_identity(name: &str) -> (r: Result<(String, String), DecodeError>)
    ensures
        r is Ok <==> valid_asset_name(name@),
        r matches Ok(p) ==> p.0@ == id_of(name@) && p.1@ == uid_of(name@),
        r matches Err(e) ==> e == DecodeError::BadIdentifier,
{
    let i = match find_first(name, '.') {
        Some(i) => i,
        None => {
            return Err(DecodeError::BadIdentifier);
        },
    };
    if i == 0 {
        return Err(DecodeError::BadIdentifier);
    }
    let id = name.substring_char(0, i);
    proof {
        assert(id@ =~= id_of(name@));
    }
    let j = match find_first(id, '-') {
        Some(j) => j,
        None => {
            return Err(DecodeError::BadIdentifier);
        },
    };
    if j == 0 {
        return Err(DecodeError::BadIdentifier);
    }
    let uid = id.substring_char(0, j);
    proof {
        assert(uid@ =~= uid_of(name@));
    }
    Ok((id.to_owned(), uid.to_owned()))
}

/// The published name of the processed asset: `"processed-"` prefixed to the
/// raw name, whatever characters the raw name holds.
pub fn processed_filename(name: &str) -> (r: String)
    ensures
        r@ == processed_name_of(name@),
{
    let prefix = String::from_str("processed-");
    prefix.concat(name)
}

} // verus!
