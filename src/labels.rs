//! Deterministic text derived from integers: the decimal form of a number,
//! the per-worker record labels and the label of a compound record.
use vstd::prelude::*;

verus! {

/// The decimal digit for `d < 10`.
pub open spec fn digit_char(d: nat) -> char {
    if d == 0 { '0' }
    else if d == 1 { '1' }
    else if d == 2 { '2' }
    else if d == 3 { '3' }
    else if d == 4 { '4' }
    else if d == 5 { '5' }
    else if d == 6 { '6' }
    else if d == 7 { '7' }
    else if d == 8 { '8' }
    else { '9' }
}

/// The decimal form of `n`, most significant digit first, without leading zeros.
pub open spec fn decimal(n: nat) -> Seq<char>
    decreases n,
{
    if n < 10 {
        seq![digit_char(n)]
    } else {
        decimal(n / 10).push(digit_char(n % 10))
    }
}

pub open spec fn name_prefix() -> Seq<char> {
    seq!['n', 'a', 'm', 'e', '-']
}

pub open spec fn email_prefix() -> Seq<char> {
    seq!['e', 'm', 'a', 'i', 'l', '-']
}

pub open spec fn cyclic_prefix() -> Seq<char> {
    seq!['c', 'y', 'c', 'l', 'i', 'c', '-']
}

/// The placeholder that a compound record holds before it is renamed.
pub open spec fn placeholder() -> Seq<char> {
    seq!['t', 'm', 'p']
}

/// `prefix` followed by `thread-iteration` in decimal.
pub open spec fn worker_label(prefix: Seq<char>, thread_id: nat, iteration: nat) -> Seq<char> {
    prefix + decimal(thread_id) + seq!['-'] + decimal(iteration)
}

/// The name and contact label of a compound record with identifier `id`.
pub open spec fn cyclic_label(id: nat) -> Seq<char> {
    cyclic_prefix() + decimal(id)
}

fn digit_str(d: u64) -> (r: &'static str)
    requires
        d < 10,
    ensures
        r@ == seq![digit_char(d as nat)],
{
    proof {
        reveal_strlit("0");
        reveal_strlit("1");
        reveal_strlit("2");
        reveal_strlit("3");
        reveal_strlit("4");
        reveal_strlit("5");
        reveal_strlit("6");
        reveal_strlit("7");
        reveal_strlit("8");
        reveal_strlit("9");
    }
    if d == 0 { "0" }
    else if d == 1 { "1" }
    else if d == 2 { "2" }
    else if d == 3 { "3" }
    else if d == 4 { "4" }
    else if d == 5 { "5" }
    else if d == 6 { "6" }
    else if d == 7 { "7" }
    else if d == 8 { "8" }
    else { "9" }
}

/// Appends the decimal form of `n` to `s`.
pub fn push_decimal(s: &mut String, n: u64)
    ensures
        final(s)@ == old(s)@ + decimal(n as nat),
    decreases n,
{
    if n >= 10 {
        push_decimal(s, n / 10);
    }
    s.append(digit_str(n % 10));
    assert(final(s)@ =~= old(s)@ + decimal(n as nat));
}

/// `prefix`, then `thread_id`, a dash and `iteration` in decimal.
fn label_for(prefix: &str, thread_id: u64, iteration: u64) -> (r: String)
    ensures
        r@ == worker_label(prefix@, thread_id as nat, iteration as nat),
{
    let mut s = String::from_str(prefix);
    push_decimal(&mut s, thread_id);
    proof {
        reveal_strlit("-");
    }
    s.append("-");
    push_decimal(&mut s, iteration);
    assert(s@ =~= worker_label(prefix@, thread_id as nat, iteration as nat));
    s
}

/// The name that worker `thread_id` writes in iteration `iteration`:
/// `name-{thread_id}-{iteration}`.
pub fn worker_name(thread_id: u64, iteration: u64) -> (r: String)
    ensures
        r@ == worker_label(name_prefix(), thread_id as nat, iteration as nat),
{
    proof {
        reveal_strlit("name-");
    }
    let r = label_for("name-", thread_id, iteration);
    assert("name-"@ =~= name_prefix());
    r
}

/// The contact label that worker `thread_id` writes in iteration
/// `iteration`: `email-{thread_id}-{iteration}`.
pub fn worker_email(thread_id: u64, iteration: u64) -> (r: String)
    ensures
        r@ == worker_label(email_prefix(), thread_id as nat, iteration as nat),
{
    proof {
        reveal_strlit("email-");
    }
    let r = label_for("email-", thread_id, iteration);
    assert("email-"@ =~= email_prefix());
    r
}

/// The final name and contact label of the compound record `id`: `cyclic-{id}`.
pub fn cyclic_name(id: u64) -> (r: String)
    ensures
        r@ == cyclic_label(id as nat),
{
    proof {
        reveal_strlit("cyclic-");
    }
    let mut s = String::from_str("cyclic-");
    push_decimal(&mut s, id);
    assert(s@ =~= cyclic_label(id as nat));
    s
}


proof fn lemma_digit_char(d: nat)
    requires
        d < 10,
    ensures
        digit_char(d) != '-',
        forall|e: nat| e < 10 && digit_char(e) == digit_char(d) ==> e == d,
{
}

/// The decimal form is never empty, holds no dash, and has a single digit
/// exactly for numbers under ten.
pub proof fn lemma_decimal_shape(n: nat)
    ensures
        decimal(n).len() >= 1,
        n < 10 <==> decimal(n).len() == 1,
        forall|k: int| 0 <= k < decimal(n).len() ==> decimal(n)[k] != '-',
    decreases n,
{
    if n < 10 {
        lemma_digit_char(n);
    } else {
        lemma_decimal_shape(n / 10);
        lemma_digit_char(n % 10);
        assert forall|k: int| 0 <= k < decimal(n).len() implies decimal(n)[k] != '-' by {
            if k < decimal(n / 10).len() {
                assert(decimal(n)[k] == decimal(n / 10)[k]);
            }
        }
    }
}

/// Distinct numbers have distinct decimal forms.
pub proof fn lemma_decimal_injective(m: nat, n: nat)
    requires
        decimal(m) == decimal(n),
    ensures
        m == n,
    decreases m,
{
    lemma_decimal_shape(m);
    lemma_decimal_shape(n);
    if m < 10 {
        lemma_digit_char(m);
        assert(n < 10);
        assert(decimal(n)[0] == digit_char(n));
        assert(decimal(m)[0] == digit_char(m));
        assert(digit_char(n) == digit_char(m));
    } else {
        assert(n >= 10);
        let dm = decimal(m);
        let dn = decimal(n);
        assert(dm.last() == digit_char(m % 10));
        assert(dn.last() == digit_char(n % 10));
        lemma_digit_char(m % 10);
        assert(decimal(m / 10) =~= dm.drop_last());
        assert(decimal(n / 10) =~= dn.drop_last());
        lemma_decimal_injective(m / 10, n / 10);
        assert(digit_char(m % 10) == digit_char(n % 10));
        assert(m % 10 == n % 10);
        assert(m == 10 * (m / 10) + m % 10);
        assert(n == 10 * (n / 10) + n % 10);
    }
}

/// Two workers, or two iterations of one worker, never write the same label:
/// the label determines the worker's identity and the iteration.
pub proof fn lemma_worker_labels_distinct(
    prefix: Seq<char>,
    t1: nat,
    i1: nat,
    t2: nat,
    i2: nat,
)
    requires
        t1 != t2 || i1 != i2,
    ensures
        worker_label(prefix, t1, i1) != worker_label(prefix, t2, i2),
{
    if worker_label(prefix, t1, i1) == worker_label(prefix, t2, i2) {
        let a = decimal(t1) + seq!['-'] + decimal(i1);
        let b = decimal(t2) + seq!['-'] + decimal(i2);
        assert(worker_label(prefix, t1, i1) =~= prefix + a);
        assert(worker_label(prefix, t2, i2) =~= prefix + b);
        assert(a =~= (prefix + a).subrange(prefix.len() as int, (prefix + a).len() as int));
        assert(b =~= (prefix + b).subrange(prefix.len() as int, (prefix + b).len() as int));
        assert(a == b);
        lemma_decimal_shape(t1);
        lemma_decimal_shape(t2);
        let l1 = decimal(t1).len();
        let l2 = decimal(t2).len();
        assert(a[l1 as int] == '-');
        assert(b[l2 as int] == '-');
        if l1 < l2 {
            assert(b[l1 as int] == decimal(t2)[l1 as int]);
        } else if l2 < l1 {
            assert(a[l2 as int] == decimal(t1)[l2 as int]);
        }
        assert(l1 == l2);
        assert(decimal(t1) =~= a.subrange(0, l1 as int));
        assert(decimal(t2) =~= b.subrange(0, l2 as int));
        assert(decimal(i1) =~= a.subrange(l1 as int + 1, a.len() as int));
        assert(decimal(i2) =~= b.subrange(l2 as int + 1, b.len() as int));
        lemma_decimal_injective(t1, t2);
        lemma_decimal_injective(i1, i2);
    }
}

/// A renamed compound record never carries the placeholder.
pub proof fn lemma_cyclic_label_not_placeholder(id: nat)
    ensures
        cyclic_label(id) != placeholder(),
{
    assert(cyclic_label(id)[0] == 'c');
    assert(placeholder()[0] == 't');
}

} // verus!
