//! The public address of a lobby: an IPv4 address in dotted-quad text and a
//! 16-bit port.
//!
//! A text is an IPv4 address when its dot-separated fields are exactly four
//! decimal octets: one to three digits each, no leading zero on a field of
//! more than one digit, no value above 255.

use vstd::prelude::*;
use vstd::string::StrSliceExecFns;

verus! {

pub open spec fn is_decimal_digit(c: char) -> bool {
    '0' <= c && c <= '9'
}

pub open spec fn digit_value(c: char) -> nat {
    (c as nat - '0' as nat) as nat
}

/// The number that a run of decimal digits writes, most significant first.
pub open spec fn decimal_value(s: Seq<char>) -> nat
    decreases s.len(),
{
    if s.len() == 0 {
        0
    } else {
        10 * decimal_value(s.drop_last()) + digit_value(s.last())
    }
}

/// The fields of a text, cut at every dot. A text without a dot is one field;
/// two dots in a row enclose an empty field.
pub open spec fn dot_fields(s: Seq<char>) -> Seq<Seq<char>>
    decreases s.len(),
{
    if s.len() == 0 {
        seq![Seq::<char>::empty()]
    } else {
        let before = dot_fields(s.drop_last());
        if s.last() == '.' {
            before.push(Seq::<char>::empty())
        } else {
            before.update(before.len() - 1, before.last().push(s.last()))
        }
    }
}

pub open spec fn is_octet_text(f: Seq<char>) -> bool {
    &&& 1 <= f.len() <= 3
    &&& forall|i: int| 0 <= i < f.len() ==> is_decimal_digit(#[trigger] f[i])
    &&& (f.len() > 1 ==> f[0] != '0')
    &&& decimal_value(f) <= 255
}

pub open spec fn is_ipv4_text(s: Seq<char>) -> bool {
    let fields = dot_fields(s);
    &&& fields.len() == 4
    &&& forall|k: int| 0 <= k < 4 ==> is_octet_text(#[trigger] fields[k])
}

/// The four octets that an IPv4 text writes, or `None` for any other text.
pub open spec fn ipv4_text_value(s: Seq<char>) -> Option<Seq<u8>> {
    if is_ipv4_text(s) {
        let fields = dot_fields(s);
        Some(Seq::new(4, |k: int| decimal_value(fields[k]) as u8))
    } else {
        None
    }
}

pub open spec fn is_prefix_of(p: Seq<char>, f: Seq<char>) -> bool {
    &&& p.len() <= f.len()
    &&& forall|i: int| 0 <= i < p.len() ==> p[i] == f[i]
}

/// `later` are the fields of a text of which `earlier` are the fields of a
/// prefix: the closed fields stay, the open one may grow, more may follow.
pub open spec fn fields_extend(earlier: Seq<Seq<char>>, later: Seq<Seq<char>>) -> bool {
    &&& 1 <= earlier.len() <= later.len()
    &&& forall|k: int| 0 <= k < earlier.len() - 1 ==> #[trigger] later[k] == earlier[k]
    &&& is_prefix_of(earlier.last(), later[earlier.len() - 1])
}

pub proof fn lemma_dot_fields_step(s: Seq<char>, i: int)
    requires
        0 <= i < s.len(),
    ensures
        dot_fields(s.take(i)).len() >= 1,
        dot_fields(s.take(i + 1)) == if s[i] == '.' {
            dot_fields(s.take(i)).push(Seq::<char>::empty())
        } else {
            dot_fields(s.take(i)).update(
                dot_fields(s.take(i)).len() - 1,
                dot_fields(s.take(i)).last().push(s[i]),
            )
        },
{
    lemma_dot_fields_nonempty(s.take(i));
    assert(s.take(i + 1).drop_last() =~= s.take(i));
    assert(s.take(i + 1).last() == s[i]);
}

pub proof fn lemma_dot_fields_nonempty(s: Seq<char>)
    ensures
        dot_fields(s).len() >= 1,
    decreases s.len(),
{
    if s.len() > 0 {
        lemma_dot_fields_nonempty(s.drop_last());
    }
}

/// Reading on never changes a field that a dot has closed, and only appends
/// to the one that is open.
pub proof fn lemma_dot_fields_prefix(s: Seq<char>, i: int)
    requires
        0 <= i <= s.len(),
    ensures
        fields_extend(dot_fields(s.take(i)), dot_fields(s)),
    decreases s.len() - i,
{
    lemma_dot_fields_nonempty(s.take(i));
    if i == s.len() {
        assert(s.take(i) =~= s);
    } else {
        lemma_dot_fields_prefix(s, i + 1);
        lemma_dot_fields_step(s, i);
        let p = dot_fields(s.take(i));
        let q = dot_fields(s.take(i + 1));
        let f = dot_fields(s);
        if s[i] == '.' {
            assert forall|k: int| 0 <= k < p.len() - 1 implies #[trigger] f[k] == p[k] by {
                assert(f[k] == q[k]);
            }
            assert(f[p.len() - 1] == q[p.len() - 1]);
        } else {
            assert forall|k: int| 0 <= k < p.len() - 1 implies #[trigger] f[k] == p[k] by {
                assert(f[k] == q[k]);
            }
            assert forall|j: int| 0 <= j < p.last().len() implies p.last()[j] == f[p.len() - 1][j] by {
                assert(q.last()[j] == p.last()[j]);
            }
        }
    }
}

/// An IPv4 address and a port.
#[derive(Clone, Copy, Debug, PartialEq, Eq)]
pub struct PublicAddress {
    pub octets: [u8; 4],
    pub port: u16,
}

pub struct PublicAddressView {
    pub octets: Seq<u8>,
    pub port: u16,
}

impl View for PublicAddress {
    type V = PublicAddressView;

    open spec fn view(&self) -> PublicAddressView {
        PublicAddressView { octets: self.octets@, port: self.port }
    }
}

/// Reads an IPv4 address in dotted-quad text.
pub fn parse_ipv4(text: &str) -> (octets: Option<[u8; 4]>)
    ensures
        match octets {
            Some(o) => ipv4_text_value(text@) == Some(o@),
            None => ipv4_text_value(text@) is None,
        },
{
    let n: usize = text.unicode_len();
    let mut closed: Vec<u8> = Vec::new();
    let mut value: u16 = 0;
    let mut digits: u8 = 0;
    let mut leading_zero: bool = false;
    let mut i: usize = 0;
    proof {
        assert(text@.take(0) =~= Seq::<char>::empty());
    }
    while i < n
        invariant
            n == text@.len(),
            0 <= i <= n,
            closed@.len() <= 3,
            dot_fields(text@.take(i as int)).len() == closed@.len() + 1,
            forall|k: int|
                0 <= k < closed@.len() ==> {
                    &&& is_octet_text(#[trigger] dot_fields(text@.take(i as int))[k])
                    &&& closed@[k] == decimal_value(dot_fields(text@.take(i as int))[k])
                },
            dot_fields(text@.take(i as int)).last().len() == digits,
            digits <= 3,
            forall|j: int|
                0 <= j < digits ==> is_decimal_digit(
                    #[trigger] dot_fields(text@.take(i as int)).last()[j],
                ),
            value == decimal_value(dot_fields(text@.take(i as int)).last()),
            digits == 0 ==> value == 0,
            digits == 1 ==> value <= 9,
            digits == 2 ==> value <= 99,
            digits == 3 ==> value <= 999,
            leading_zero <==> (digits >= 1 && dot_fields(text@.take(i as int)).last()[0] == '0'),
        decreases n - i,
    {
        let c = text.get_char(i);
        let ghost p = dot_fields(text@.take(i as int));
        let ghost q = dot_fields(text@.take(i + 1));
        let ghost f = dot_fields(text@);
        proof {
            lemma_dot_fields_step(text@, i as int);
            lemma_dot_fields_prefix(text@, i + 1);
        }
        if c == '.' {
            if digits == 0 || value > 255 || (digits > 1 && leading_zero) || closed.len() == 3 {
                proof {
                    let k = closed@.len() as int;
                    assert(q.len() == k + 2);
                    assert(f[k] == q[k]);
                    assert(q[k] == p.last());
                }
                return None;
            }
            closed.push(value as u8);
            value = 0;
            digits = 0;
            leading_zero = false;
            proof {
                assert forall|k: int| 0 <= k < closed@.len() implies {
                    &&& is_octet_text(#[trigger] q[k])
                    &&& closed@[k] == decimal_value(q[k])
                } by {
                    assert(q[k] == p[k]);
                }
            }
        } else if '0' <= c && c <= '9' {
            if digits == 3 {
                proof {
                    let k = closed@.len() as int;
                    assert(q.last().len() == 4);
                    assert(f[k].len() >= 4);
                }
                return None;
            }
            if digits == 0 {
                leading_zero = c == '0';
            }
            let d: u16 = (c as u32 - '0' as u32) as u16;
            proof {
                assert(q.last() == p.last().push(c));
                assert(q.last().drop_last() =~= p.last());
                assert(q.last().last() == c);
                assert(d == digit_value(c));
                assert forall|k: int| 0 <= k < closed@.len() implies {
                    &&& is_octet_text(#[trigger] q[k])
                    &&& closed@[k] == decimal_value(q[k])
                } by {
                    assert(q[k] == p[k]);
                }
            }
            value = 10 * value + d;
            digits = digits + 1;
        } else {
            proof {
                let k = closed@.len() as int;
                assert(q.last() == p.last().push(c));
                assert(q.last()[digits as int] == c);
                assert(f[k][digits as int] == c);
                assert(!is_decimal_digit(f[k][digits as int]));
            }
            return None;
        }
        i = i + 1;
    }
    proof {
        assert(text@.take(n as int) =~= text@);
    }
    if closed.len() != 3 || digits == 0 || value > 255 || (digits > 1 && leading_zero) {
        proof {
            let f = dot_fields(text@);
            if closed@.len() == 3 {
                assert(f[3] == f.last());
            }
        }
        return None;
    }
    let octets: [u8; 4] = [closed[0], closed[1], closed[2], value as u8];
    proof {
        let f = dot_fields(text@);
        assert(f[3] == f.last());
        assert forall|k: int| 0 <= k < 4 implies is_octet_text(#[trigger] f[k]) by {
            if k < 3 {
            } else {
                assert(f[k] == f.last());
            }
        }
        assert(octets@ =~= Seq::new(4, |k: int| decimal_value(f[k]) as u8));
    }
    Some(octets)
}

} // verus!
