use vstd::prelude::*;

use vstd::string::{StrSliceExecFns, StringExecFns};

verus! {

/// Why a legacy address string was rejected, before any request was issued.
#[derive(Clone, Copy, PartialEq, Eq, Structural, Debug)]
pub enum AddressFormatError {
    /// The string does not split into exactly two `:`-delimited parts.
    Shape,
    /// The part after the colon is not a decimal number within `u16`.
    Port,
}

/// A decimal digit.
pub open spec fn is_digit(c: char) -> bool {
    48 <= c as int <= 57
}

/// The numeric value of a decimal digit.
pub open spec fn digit_val(c: char) -> int {
    c as int - 48
}

/// Every character of `s` is a decimal digit.
pub open spec fn all_digits(s: Seq<char>) -> bool {
    forall|i: int| 0 <= i < s.len() ==> is_digit(#[trigger] s[i])
}

/// The value of a decimal digit string, most significant digit first.
pub open spec fn dec_val(s: Seq<char>) -> int
    decreases s.len(),
{
    if s.len() == 0 {
        0
    } else {
        dec_val(s.drop_last()) * 10 + digit_val(s.last())
    }
}

/// A valid port: nonempty, digits only, value within 16 bits.
pub open spec fn is_port_str(s: Seq<char>) -> bool {
    &&& s.len() > 0
    &&& all_digits(s)
    &&& dec_val(s) <= 0xffff
}

/// How many colons `s` holds.
pub open spec fn count_colons(s: Seq<char>) -> int
    decreases s.len(),
{
    if s.len() == 0 {
        0
    } else {
        count_colons(s.drop_last()) + if s.last() == ':' { 1int } else { 0int }
    }
}

/// `i` is the position of the one and only colon of `s`.
pub open spec fn split_ok(s: Seq<char>, i: int) -> bool {
    &&& 0 <= i < s.len()
    &&& s[i] == ':'
    &&& forall|j: int| 0 <= j < s.len() && j != i ==> s[j] != ':'
}

/// A valid legacy address: one colon, and a valid port after it.
pub open spec fn valid_address(s: Seq<char>) -> bool {
    exists|i: int| #[trigger] split_ok(s, i) && is_port_str(s.subrange(i + 1, s.len() as int))
}

proof fn lemma_dec_val_nonneg(s: Seq<char>)
    requires
        all_digits(s),
    ensures
        dec_val(s) >= 0,
    decreases s.len(),
{
    if s.len() > 0 {
        assert(all_digits(s.drop_last()));
        lemma_dec_val_nonneg(s.drop_last());
    }
}

proof fn lemma_dec_val_prefix(s: Seq<char>, k: int)
    requires
        all_digits(s),
        0 <= k <= s.len(),
    ensures
        dec_val(s.take(k)) <= dec_val(s),
    decreases s.len() - k,
{
    if k == s.len() {
        assert(s.take(k) =~= s);
    } else {
        assert(all_digits(s.drop_last()));
        lemma_dec_val_nonneg(s.drop_last());
        lemma_dec_val_prefix(s.drop_last(), k);
        assert(s.drop_last().take(k) =~= s.take(k));
    }
}

/// Splits a legacy `host:port` address. Succeeds exactly on the strings with
/// a single colon followed by a 16-bit decimal port; the host is the exact
/// prefix before the colon, the port the decimal value after it. The shape
/// error reports a colon count other than one; the port error a bad number.
#[verifier::loop_isolation(false)]
pub fn parse_address(address: &str) -> (r: Result<(String, u16), AddressFormatError>)
    ensures
        r is Ok <==> valid_address(address@),
        r == Err::<(String, u16), AddressFormatError>(AddressFormatError::Shape) <==> count_colons(
            address@,
        ) != 1,
        r matches Ok(hp) ==> forall|i: int|
            split_ok(address@, i) ==> hp.0@ == address@.subrange(0, i) && hp.1 == dec_val(
                address@.subrange(i + 1, address@.len() as int),
            ),
{
    let ghost s = address@;
    let len = address.unicode_len();
    let mut count: usize = 0;
    let mut idx: usize = 0;
    let mut i: usize = 0;
    while i < len
        invariant
            i <= len,
            len == s.len(),
            count <= i,
            count == count_colons(s.take(i as int)),
            count == 0 ==> forall|j: int| 0 <= j < i ==> s[j] != ':',
            count == 1 ==> idx < i && s[idx as int] == ':' && (forall|j: int|
                0 <= j < i && j != idx ==> s[j] != ':'),
        decreases len - i,
    {
        let c = address.get_char(i);
        proof {
            assert(s.take(i as int + 1).drop_last() =~= s.take(i as int));
            assert(s.take(i as int + 1).last() == s[i as int]);
        }
        if c == ':' {
            if count == 0 {
                idx = i;
            }
            count = count + 1;
        }
        i += 1;
    }
    proof {
        assert(s.take(len as int) =~= s);
    }
    if count != 1 {
        proof {
            assert forall|k: int| !(#[trigger] split_ok(s, k)) by {
                if split_ok(s, k) {
                    lemma_one_colon(s, k);
                }
            }
        }
        return Err(AddressFormatError::Shape);
    }
    proof {
        assert(split_ok(s, idx as int));
        assert forall|k: int| split_ok(s, k) implies k == idx as int by {
            if k != idx as int {
                assert(s[idx as int] != ':');
            }
        }
    }
    let host = address.substring_char(0, idx).to_owned();
    let port_str = address.substring_char(idx + 1, len);
    let ghost t = s.subrange(idx as int + 1, s.len() as int);
    let plen = port_str.unicode_len();
    if plen == 0 {
        return Err(AddressFormatError::Port);
    }
    let mut acc: u32 = 0;
    let mut j: usize = 0;
    while j < plen
        invariant
            j <= plen,
            plen == t.len(),
            port_str@ == t,
            acc <= 0xffff,
            all_digits(t.take(j as int)),
            acc == dec_val(t.take(j as int)),
        decreases plen - j,
    {
        let c = port_str.get_char(j);
        let d = c as u32;
        proof {
            assert(t.take(j as int + 1).drop_last() =~= t.take(j as int));
            assert(t.take(j as int + 1).last() == t[j as int]);
        }
        if d < 48 || d > 57 {
            proof {
                assert(!is_digit(t[j as int]));
            }
            return Err(AddressFormatError::Port);
        }
        acc = acc * 10 + (d - 48);
        if acc > 0xffff {
            proof {
                if all_digits(t) {
                    lemma_dec_val_prefix(t, j as int + 1);
                }
            }
            return Err(AddressFormatError::Port);
        }
        j += 1;
    }
    proof {
        assert(t.take(plen as int) =~= t);
    }
    let port: u16 = acc as u16;
    Ok((host, port))
}

proof fn lemma_one_colon(s: Seq<char>, k: int)
    requires
        0 <= k < s.len(),
        s[k] == ':',
        forall|j: int| 0 <= j < s.len() && j != k ==> s[j] != ':',
    ensures
        count_colons(s) == 1,
    decreases s.len(),
{
    if k == s.len() - 1 {
        lemma_no_colon(s.drop_last());
    } else {
        lemma_one_colon(s.drop_last(), k);
    }
}

proof fn lemma_no_colon(s: Seq<char>)
    requires
        forall|j: int| 0 <= j < s.len() ==> s[j] != ':',
    ensures
        count_colons(s) == 0,
    decreases s.len(),
{
    if s.len() > 0 {
        lemma_no_colon(s.drop_last());
    }
}

/// The synthetic node identity the legacy surface assumes the registry uses:
/// the service name and node name joined by a colon. The registry's real
/// assignment is not guaranteed to have this form; the legacy deregister
/// path depends on this assumption and is kept as it has always behaved.
pub fn legacy_identity(service_name: &str, node_name: &str) -> (r: String)
    ensures
        r@ == service_name@ + ":"@ + node_name@,
{
    let mut s = service_name.to_owned();
    s.append(":");
    s.append(node_name);
    proof {
        assert(s@ =~= service_name@ + ":"@ + node_name@);
    }
    s
}

} // verus!
