use vstd::prelude::*;
use vstd::string::{StrSliceExecFns, StringExecFns};

use crate::error::PoolError;

verus! {

/// The text that every generated pool identity starts with.
pub const POOL_NAME_PREFIX: &'static str = "__rust_jobserver_semaphore_";

/// The character of a decimal digit.
pub open spec fn digit_char(d: nat) -> char {
    if d == 0 {
        '0'
    } else if d == 1 {
        '1'
    } else if d == 2 {
        '2'
    } else if d == 3 {
        '3'
    } else if d == 4 {
        '4'
    } else if d == 5 {
        '5'
    } else if d == 6 {
        '6'
    } else if d == 7 {
        '7'
    } else if d == 8 {
        '8'
    } else {
        '9'
    }
}

/// The decimal representation of `n`, without leading zeros.
pub open spec fn decimal(n: nat) -> Seq<char>
    decreases n,
{
    if n < 10 {
        seq![digit_char(n)]
    } else {
        decimal(n / 10).push(digit_char(n % 10))
    }
}

/// The identity generated from the random draw `n`.
pub open spec fn spec_pool_name(n: nat) -> Seq<char> {
    POOL_NAME_PREFIX@ + decimal(n)
}

/// A text that can name a semaphore: it is not empty and holds no NUL, which
/// would end the native name early.
pub open spec fn is_identity(s: Seq<char>) -> bool {
    &&& s.len() > 0
    &&& forall|i: int| 0 <= i < s.len() ==> s[i] != '\0'
}

proof fn lemma_decimal_has_no_nul(n: nat)
    ensures
        decimal(n).len() > 0,
        forall|i: int| 0 <= i < decimal(n).len() ==> decimal(n)[i] != '\0',
    decreases n,
{
    if n >= 10 {
        lemma_decimal_has_no_nul(n / 10);
        let d = decimal(n);
        let s = decimal(n / 10);
        assert forall|i: int| 0 <= i < d.len() implies d[i] != '\0' by {
            if i < s.len() {
                assert(d[i] == s[i]);
            }
        }
    }
}

/// Every identity generated for a new pool can be attached to: whatever the
/// random draw, the name is non-empty and holds no NUL.
pub proof fn generated_name_is_identity(n: nat)
    ensures
        is_identity(spec_pool_name(n)),
{
    reveal_strlit("__rust_jobserver_semaphore_");
    lemma_decimal_has_no_nul(n);
    let p = POOL_NAME_PREFIX@;
    let s = spec_pool_name(n);
    assert forall|i: int| 0 <= i < s.len() implies s[i] != '\0' by {
        if i >= p.len() {
            assert(s[i] == decimal(n)[i - p.len()]);
        }
    }
}

/// Attaching by a text that is empty or holds a NUL fails as malformed before
/// anything is opened: such a text is no identity, `native_name` rejects
/// exactly the texts that are not identities, and only an identity can be
/// handed to the open step.
pub proof fn malformed_identity_is_rejected(s: Seq<char>)
    requires
        s.len() == 0 || exists|i: int| 0 <= i < s.len() && s[i] == '\0',
    ensures
        !is_identity(s),
{
}

fn digit_str(d: u32) -> (r: &'static str)
    requires
        d < 10,
    ensures
        r@ == seq![digit_char(d as nat)],
{
    proof {
        reveal_strlit("0");
        reveal_strlit("1");
        reveal_strlit("2");
        reveal_strlit("3");
        reveal_strlit("4");
        reveal_strlit("5");
        reveal_strlit("6");
        reveal_strlit("7");
        reveal_strlit("8");
        reveal_strlit("9");
    }
    if d == 0 {
        "0"
    } else if d == 1 {
        "1"
    } else if d == 2 {
        "2"
    } else if d == 3 {
        "3"
    } else if d == 4 {
        "4"
    } else if d == 5 {
        "5"
    } else if d == 6 {
        "6"
    } else if d == 7 {
        "7"
    } else if d == 8 {
        "8"
    } else {
        "9"
    }
}

fn append_decimal(s: &mut String, n: u32)
    ensures
        final(s)@ == old(s)@ + decimal(n as nat),
    decreases n,
{
    if n >= 10 {
        append_decimal(s, n / 10);
    }
    s.append(digit_str(n % 10));
    assert(final(s)@ =~= old(s)@ + decimal(n as nat));
}

/// The pool identity built from the random draw `n`: the fixed prefix
/// followed by `n` in decimal.
pub fn pool_name(n: u32) -> (r: String)
    ensures
        r@ == spec_pool_name(n as nat),
{
    let mut s = String::from_str(POOL_NAME_PREFIX);
    append_decimal(&mut s, n);
    s
}

/// The native, NUL-terminated object name for `identity`, or
/// `MalformedIdentity` when the identity is empty or holds a NUL.
pub fn native_name(identity: &str) -> (r: Result<String, PoolError>)
    ensures
        r is Ok <==> is_identity(identity@),
        r matches Ok(n) ==> n@ == identity@.push('\0'),
        r matches Err(e) ==> (e matches PoolError::MalformedIdentity(t) && t@ == identity@),
{
    let len = identity.unicode_len();
    let mut ok = len > 0;
    let mut i: usize = 0;
    while i < len
        invariant
            len == identity@.len(),
            i <= len,
            ok <==> (len > 0 && forall|j: int| 0 <= j < i ==> identity@[j] != '\0'),
        decreases len - i,
    {
        if identity.get_char(i) == '\0' {
            ok = false;
        }
        i = i + 1;
    }
    if ok {
        let mut n = String::from_str(identity);
        proof {
            reveal_strlit("\0");
        }
        n.append("\0");
        assert(n@ =~= identity@.push('\0'));
        Ok(n)
    } else {
        Err(PoolError::MalformedIdentity(String::from_str(identity)))
    }
}

} // verus!
