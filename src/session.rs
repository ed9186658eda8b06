use vstd::prelude::*;

use crate::layout::views_of;
use crate::text::{chars_of, string_of};

verus! {

/// The decimal digit for `d`.
pub open spec fn digit(d: nat) -> char {
    if d == 0 {
        '0'
    } else if d == 1 {
        '1'
    } else if d == 2 {
        '2'
    } else if d == 3 {
        '3'
    } else if d == 4 {
        '4'
    } else if d == 5 {
        '5'
    } else if d == 6 {
        '6'
    } else if d == 7 {
        '7'
    } else if d == 8 {
        '8'
    } else {
        '9'
    }
}

/// `n` written in decimal, without leading zeros.
pub open spec fn decimal(n: nat) -> Seq<char>
    decreases n,
{
    if n < 10 {
        seq![digit(n)]
    } else {
        decimal(n / 10).push(digit(n % 10))
    }
}

/// The session name for `user` on `host` with suffix `n`: `user-host-n`.
pub open spec fn session_name(user: Seq<char>, host: Seq<char>, n: nat) -> Seq<char> {
    user + seq!['-'] + host + seq!['-'] + decimal(n)
}

/// The smallest suffix from 1 on whose name is not among `taken` is `n`.
pub open spec fn first_free(user: Seq<char>, host: Seq<char>, taken: Seq<Seq<char>>, n: nat) -> bool {
    &&& 1 <= n
    &&& !taken.contains(session_name(user, host, n))
    &&& forall|k: nat| 1 <= k < n ==> taken.contains(#[trigger] session_name(user, host, k))
}

proof fn lemma_decimal_nonempty(n: nat)
    ensures
        decimal(n).len() >= 1,
    decreases n,
{
    if n >= 10 {
        lemma_decimal_nonempty(n / 10);
    }
}

/// Two numbers with the same decimal text are equal.
pub proof fn lemma_decimal_injective(a: nat, b: nat)
    requires
        decimal(a) == decimal(b),
    ensures
        a == b,
    decreases a,
{
    if a < 10 && b < 10 {
        assert(decimal(a)[0] == digit(a));
    } else if a < 10 {
        lemma_decimal_nonempty(b / 10);
        assert(decimal(b).len() >= 2);
    } else if b < 10 {
        lemma_decimal_nonempty(a / 10);
        assert(decimal(a).len() >= 2);
    } else {
        let da = decimal(a / 10);
        let db = decimal(b / 10);
        assert(decimal(a).last() == digit(a % 10));
        assert(decimal(b).last() == digit(b % 10));
        assert(decimal(a).drop_last() =~= da);
        assert(decimal(b).drop_last() =~= db);
        lemma_decimal_injective(a / 10, b / 10);
    }
}

/// Different suffixes give different session names.
pub proof fn lemma_session_name_injective(user: Seq<char>, host: Seq<char>, a: nat, b: nat)
    requires
        session_name(user, host, a) == session_name(user, host, b),
    ensures
        a == b,
{
    let base = user + seq!['-'] + host + seq!['-'];
    assert(session_name(user, host, a).skip(base.len() as int) =~= decimal(a));
    assert(session_name(user, host, b).skip(base.len() as int) =~= decimal(b));
    lemma_decimal_injective(a, b);
}

/// A list that holds the names with suffixes 1 to `m` is at least `m` long.
proof fn lemma_names_fit(user: Seq<char>, host: Seq<char>, taken: Seq<Seq<char>>, m: nat)
    requires
        forall|k: nat| 1 <= k <= m ==> taken.contains(#[trigger] session_name(user, host, k)),
    ensures
        m <= taken.len(),
    decreases m,
{
    if m > 0 {
        let last = session_name(user, host, m);
        assert(taken.contains(last));
        let i = choose|i: int| 0 <= i < taken.len() && taken[i] == last;
        let rest = taken.remove(i);
        assert forall|k: nat| 1 <= k <= m - 1 implies rest.contains(
            #[trigger] session_name(user, host, k),
        ) by {
            let x = session_name(user, host, k);
            assert(taken.contains(x));
            let j = choose|j: int| 0 <= j < taken.len() && taken[j] == x;
            if j == i {
                lemma_session_name_injective(user, host, k, m);
            } else if j < i {
                assert(rest[j] == x);
            } else {
                assert(rest[j - 1] == x);
            }
        }
        lemma_names_fit(user, host, rest, (m - 1) as nat);
    }
}

/// Appends the decimal text of `n` to `out`.
fn push_decimal(n: usize, out: &mut Vec<char>)
    ensures
        final(out)@ == old(out)@ + decimal(n as nat),
    decreases n,
{
    if n >= 10 {
        push_decimal(n / 10, out);
    }
    let d = n % 10;
    let c = if d == 0 {
        '0'
    } else if d == 1 {
        '1'
    } else if d == 2 {
        '2'
    } else if d == 3 {
        '3'
    } else if d == 4 {
        '4'
    } else if d == 5 {
        '5'
    } else if d == 6 {
        '6'
    } else if d == 7 {
        '7'
    } else if d == 8 {
        '8'
    } else {
        '9'
    };
    out.push(c);
    assert(out@ =~= old(out)@ + decimal(n as nat));
}

/// The session name for `user` on `host` with suffix `n`.
pub fn make_session_name(user: &str, host: &str, n: usize) -> (r: String)
    ensures
        r@ == session_name(user@, host@, n as nat),
{
    let mut v = chars_of(user);
    v.push('-');
    let h = chars_of(host);
    let mut i: usize = 0;
    let ghost v0 = v@;
    while i < h.len()
        invariant
            i <= h.len(),
            v@ == v0 + h@.take(i as int),
        decreases h.len() - i,
    {
        v.push(h[i]);
        assert(v@ =~= v0 + h@.take(i + 1));
        i = i + 1;
    }
    assert(h@.take(h.len() as int) =~= h@);
    v.push('-');
    push_decimal(n, &mut v);
    assert(v@ =~= session_name(user@, host@, n as nat));
    string_of(&v)
}

/// Whether `name` is among `names`.
fn is_taken(names: &[String], name: &String) -> (r: bool)
    ensures
        r == views_of(names@).contains(name@),
{
    let mut i: usize = 0;
    while i < names.len()
        invariant
            i <= names.len(),
            forall|k: int| 0 <= k < i ==> names@[k]@ != name@,
        decreases names.len() - i,
    {
        if names[i] == *name {
            assert(views_of(names@)[i as int] == name@);
            return true;
        }
        i = i + 1;
    }
    assert forall|k: int| 0 <= k < views_of(names@).len() implies views_of(names@)[k] != name@ by {
        assert(views_of(names@)[k] == names@[k]@);
    }
    false
}

/// The first session name `user-host-n`, counting `n` from 1, that is not
/// among `existing`.
pub fn unique_session_name(user: &str, host: &str, existing: &[String]) -> (r: String)
    requires
        existing.len() < usize::MAX,
    ensures
        exists|n: nat| {
            &&& first_free(user@, host@, views_of(existing@), n)
            &&& r@ == session_name(user@, host@, n)
        },
{
    let ghost taken = views_of(existing@);
    let mut n: usize = 1;
    loop
        invariant
            1 <= n <= existing.len() + 1,
            existing.len() < usize::MAX,
            taken == views_of(existing@),
            forall|k: nat| 1 <= k < n ==> taken.contains(#[trigger] session_name(user@, host@, k)),
        decreases existing.len() + 1 - n,
    {
        let name = make_session_name(user, host, n);
        if !is_taken(existing, &name) {
            assert(first_free(user@, host@, taken, n as nat));
            return name;
        }
        proof {
            assert forall|k: nat| 1 <= k <= n implies taken.contains(
                #[trigger] session_name(user@, host@, k),
            ) by {}
            lemma_names_fit(user@, host@, taken, n as nat);
            assert(taken.len() == existing.len());
        }
        n = n + 1;
    }
}

} // verus!
