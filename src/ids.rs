//! Identifiers handed out by a session: hook callback ids `hook_<n>` and control
//! request ids `req_<n>_<nonce>`, where `<n>` is the decimal text of a counter.
use vstd::prelude::*;

verus! {

/// The digit for `d`, taken below ten.
pub open spec fn digit_char(d: nat) -> char {
    if d == 0 {
        '0'
    } else if d == 1 {
        '1'
    } else if d == 2 {
        '2'
    } else if d == 3 {
        '3'
    } else if d == 4 {
        '4'
    } else if d == 5 {
        '5'
    } else if d == 6 {
        '6'
    } else if d == 7 {
        '7'
    } else if d == 8 {
        '8'
    } else {
        '9'
    }
}

/// The decimal text of `n`, without leading zeros.
pub open spec fn decimal(n: nat) -> Seq<char>
    decreases n,
{
    if n < 10 {
        seq![digit_char(n)]
    } else {
        decimal(n / 10).push(digit_char(n % 10))
    }
}

pub open spec fn hook_id_text(n: nat) -> Seq<char> {
    seq!['h', 'o', 'o', 'k', '_'] + decimal(n)
}

pub open spec fn request_id_text(n: nat, nonce: Seq<char>) -> Seq<char> {
    seq!['r', 'e', 'q', '_'] + decimal(n) + seq!['_'] + nonce
}

/// `id` is a request id issued with counter value `n`, whatever its nonce.
pub open spec fn issued_with(id: Seq<char>, n: nat) -> bool {
    exists|u: Seq<char>| #[trigger] request_id_text(n, u) == id
}

proof fn lemma_decimal_shape(n: nat)
    ensures
        decimal(n).len() >= 1,
        n < 10 <==> decimal(n).len() == 1,
        forall|i: int| 0 <= i < decimal(n).len() ==> #[trigger] decimal(n)[i] != '_',
    decreases n,
{
    if n >= 10 {
        lemma_decimal_shape(n / 10);
        assert forall|i: int| 0 <= i < decimal(n).len() implies #[trigger] decimal(n)[i] != '_' by {
            if i < decimal(n / 10).len() {
                assert(decimal(n)[i] == decimal(n / 10)[i]);
            }
        }
    }
}

/// Distinct numbers have distinct decimal texts.
pub proof fn lemma_decimal_injective(a: nat, b: nat)
    requires
        decimal(a) == decimal(b),
    ensures
        a == b,
    decreases a,
{
    lemma_decimal_shape(a);
    lemma_decimal_shape(b);
    if a < 10 {
        assert(b < 10);
        assert(decimal(a)[0] == digit_char(a));
        assert(decimal(b)[0] == digit_char(b));
        assert(digit_char(a) == digit_char(b));
    } else {
        let da = decimal(a);
        assert(da.drop_last() == decimal(a / 10));
        assert(decimal(b).drop_last() == decimal(b / 10));
        assert(b >= 10);
        assert(da.last() == decimal(b).last());
        assert(digit_char(a % 10) == digit_char(b % 10));
        assert(a % 10 == b % 10);
        lemma_decimal_injective(a / 10, b / 10);
        assert(a == 10 * (a / 10) + a % 10);
        assert(b == 10 * (b / 10) + b % 10);
    }
}

/// Distinct counter values give distinct hook ids.
pub proof fn lemma_hook_id_injective(a: nat, b: nat)
    requires
        hook_id_text(a) == hook_id_text(b),
    ensures
        a == b,
{
    assert(decimal(a) == hook_id_text(a).subrange(5, hook_id_text(a).len() as int));
    assert(decimal(b) == hook_id_text(b).subrange(5, hook_id_text(b).len() as int));
    lemma_decimal_injective(a, b);
}

/// Distinct counter values give distinct request ids, whatever the nonces.
pub proof fn lemma_request_id_injective(a: nat, u: Seq<char>, b: nat, v: Seq<char>)
    requires
        request_id_text(a, u) == request_id_text(b, v),
    ensures
        a == b,
{
    let da = decimal(a);
    let db = decimal(b);
    let s = request_id_text(a, u);
    lemma_decimal_shape(a);
    lemma_decimal_shape(b);
    if da.len() < db.len() {
        assert(s[4 + da.len() as int] == '_');
        assert(request_id_text(b, v)[4 + da.len() as int] == db[da.len() as int]);
    } else if db.len() < da.len() {
        assert(request_id_text(b, v)[4 + db.len() as int] == '_');
        assert(s[4 + db.len() as int] == da[db.len() as int]);
    } else {
        assert(da == s.subrange(4, 4 + da.len() as int));
        assert(db == request_id_text(b, v).subrange(4, 4 + db.len() as int));
        lemma_decimal_injective(a, b);
    }
}

/// An id issued with one counter value was not issued with another.
pub proof fn lemma_issued_with_unique(id: Seq<char>, a: nat, b: nat)
    requires
        issued_with(id, a),
        issued_with(id, b),
    ensures
        a == b,
{
    let u = choose|u: Seq<char>| #[trigger] request_id_text(a, u) == id;
    let v = choose|v: Seq<char>| #[trigger] request_id_text(b, v) == id;
    lemma_request_id_injective(a, u, b, v);
}

fn digit_text(d: u64) -> (r: &'static str)
    requires
        d < 10,
    ensures
        r@ == seq![digit_char(d as nat)],
{
    proof {
        reveal_strlit("0");
        reveal_strlit("1");
        reveal_strlit("2");
        reveal_strlit("3");
        reveal_strlit("4");
        reveal_strlit("5");
        reveal_strlit("6");
        reveal_strlit("7");
        reveal_strlit("8");
        reveal_strlit("9");
    }
    if d == 0 {
        "0"
    } else if d == 1 {
        "1"
    } else if d == 2 {
        "2"
    } else if d == 3 {
        "3"
    } else if d == 4 {
        "4"
    } else if d == 5 {
        "5"
    } else if d == 6 {
        "6"
    } else if d == 7 {
        "7"
    } else if d == 8 {
        "8"
    } else {
        "9"
    }
}

/// The decimal text of `n`.
pub fn decimal_text(n: u64) -> (r: String)
    ensures
        r@ == decimal(n as nat),
{
    let mut m = n;
    let mut acc = String::new();
    while m >= 10
        invariant
            decimal(n as nat) == decimal(m as nat) + acc@,
        decreases m,
    {
        let d = m % 10;
        let next = digit_text(d).to_string().concat(acc.as_str());
        proof {
            assert(decimal(m as nat) == decimal((m / 10) as nat).push(digit_char(d as nat)));
            assert(decimal(m as nat) + acc@ =~= decimal((m / 10) as nat) + next@);
        }
        acc = next;
        m = m / 10;
    }
    let r = digit_text(m).to_string().concat(acc.as_str());
    assert(r@ =~= decimal(m as nat) + acc@);
    r
}

/// The hook callback id for counter value `n`.
pub fn hook_id(n: u64) -> (r: String)
    ensures
        r@ == hook_id_text(n as nat),
{
    let digits = decimal_text(n);
    proof {
        reveal_strlit("hook_");
    }
    "hook_".to_string().concat(digits.as_str())
}

/// The control request id for counter value `n` and the given nonce.
pub fn request_id(n: u64, nonce: &str) -> (r: String)
    ensures
        r@ == request_id_text(n as nat, nonce@),
{
    let digits = decimal_text(n);
    proof {
        reveal_strlit("req_");
        reveal_strlit("_");
    }
    let r = "req_".to_string().concat(digits.as_str()).concat("_").concat(nonce);
    assert(r@ == request_id_text(n as nat, nonce@));
    r
}

} // verus!
