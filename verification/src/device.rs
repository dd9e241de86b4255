//! The device identifier: the MD5 digest of the user name joined with the
//! machine GUID, rendered as uppercase hexadecimal.

use vstd::prelude::*;
use vstd::utf8::encode_utf8;
use crate::hash::{is_lower_hex_char, md5_hex_of, run_md5_hash, spec_upper_hex,
    spec_upper_hex_char};

verus! {

/// Appends the ASCII uppercase form of one lowercase hexadecimal character.
fn append_upper_hex_char(s: &mut String, c: char)
    requires
        is_lower_hex_char(c),
    ensures
        final(s)@ == old(s)@ + seq![spec_upper_hex_char(c)],
{
    let u = c as u32;
    if u == 97 {
        proof { reveal_strlit("A"); }
        s.append("A");
    } else if u == 98 {
        proof { reveal_strlit("B"); }
        s.append("B");
    } else if u == 99 {
        proof { reveal_strlit("C"); }
        s.append("C");
    } else if u == 100 {
        proof { reveal_strlit("D"); }
        s.append("D");
    } else if u == 101 {
        proof { reveal_strlit("E"); }
        s.append("E");
    } else if u == 102 {
        proof { reveal_strlit("F"); }
        s.append("F");
    } else {
        crate::num::append_digit_char(s, c);
    }
    proof {
        assert(final(s)@ =~= old(s)@ + seq![spec_upper_hex_char(c)]);
    }
}

/// The device identifier computed from the user name and the machine GUID:
/// the MD5 digest of their concatenation, as uppercase hexadecimal.
pub fn device_id_from_parts(username: &str, machine_guid: &str) -> (r: String)
    ensures
        r@ == spec_upper_hex(md5_hex_of(encode_utf8(username@ + machine_guid@))),
{
    let joined = String::from_str(username).concat(machine_guid);
    let digest = run_md5_hash(joined.as_str());
    let n = digest.as_str().unicode_len();
    let mut out = String::new();
    let mut i: usize = 0;
    while i < n
        invariant
            n == digest@.len(),
            0 <= i <= n,
            forall|k: int| 0 <= k < n ==> is_lower_hex_char(#[trigger] digest@[k]),
            out@ =~= spec_upper_hex(digest@.subrange(0, i as int)),
        decreases n - i,
    {
        let c = digest.as_str().get_char(i);
        append_upper_hex_char(&mut out, c);
        proof {
            assert(digest@.subrange(0, i + 1 as int).drop_last() =~= digest@.subrange(
                0,
                i as int,
            ));
            assert(out@ =~= spec_upper_hex(digest@.subrange(0, i + 1 as int)));
        }
        i = i + 1;
    }
    proof {
        assert(digest@.subrange(0, n as int) =~= digest@);
        assert(out@ =~= spec_upper_hex(md5_hex_of(encode_utf8(username@ + machine_guid@))));
    }
    out
}

} // verus!
