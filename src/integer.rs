use vstd::prelude::*;
use vstd::string::*;

use crate::ast::{Location, Value};
use crate::error::ParseError;
use crate::location::InputLocation;
use crate::rule::Rule;
use crate::tree::ParseNode;

verus! {

/// An integer literal: its value and the radix it was written in.
#[derive(Debug, Clone, Copy, PartialEq, Eq, Structural)]
pub struct Integer {
    pub value: i64,
    pub radix: usize,
    pub location: InputLocation,
}

impl Integer {
    pub fn radix(&self) -> (r: usize)
        ensures
            r == self.radix,
    {
        self.radix
    }
}

impl Value for Integer {
    type Item = i64;

    open spec fn item(&self) -> i64 {
        self.value
    }

    fn value(self) -> (r: i64) {
        self.value
    }

    fn value_ref(&self) -> (r: &i64) {
        &self.value
    }
}

impl Location for Integer {
    open spec fn loc(&self) -> InputLocation {
        self.location
    }

    fn location(&self) -> (r: &InputLocation) {
        &self.location
    }
}

/// The radix of each form of integer literal; a lone zero counts as decimal.
pub open spec fn radix_of(rule: Rule) -> Option<nat> {
    match rule {
        Rule::integer_decimal => Some(10),
        Rule::integer_hexadecimal => Some(16),
        Rule::integer_octal => Some(8),
        Rule::integer_binary => Some(2),
        Rule::integer_zero => Some(10),
        _ => None,
    }
}

/// The value of a digit character in any radix up to 36 (letters in either
/// case), or 36 for a character that is no digit.
pub open spec fn digit_of(c: char) -> nat {
    if '0' <= c && c <= '9' {
        (c as nat - '0' as nat) as nat
    } else if 'a' <= c && c <= 'z' {
        (c as nat - 'a' as nat + 10) as nat
    } else if 'A' <= c && c <= 'Z' {
        (c as nat - 'A' as nat + 10) as nat
    } else {
        36
    }
}

/// The text with its digit-group separators (`_`) left out.
pub open spec fn without_separators(s: Seq<char>) -> Seq<char>
    decreases s.len(),
{
    if s.len() == 0 {
        s
    } else if s.last() == '_' {
        without_separators(s.drop_last())
    } else {
        without_separators(s.drop_last()).push(s.last())
    }
}

/// Every character is a digit of the radix.
pub open spec fn all_digits(d: Seq<char>, radix: nat) -> bool {
    forall|i: int| 0 <= i < d.len() ==> digit_of(#[trigger] d[i]) < radix
}

/// The number that the digits spell in the radix, most significant first.
pub open spec fn digits_value(d: Seq<char>, radix: nat) -> nat
    decreases d.len(),
{
    if d.len() == 0 {
        0
    } else {
        digits_value(d.drop_last(), radix) * radix + digit_of(d.last())
    }
}

/// What an `integer` node denotes: its first child's form gives the radix,
/// and that child's text, separators left out, must be a non-empty run of
/// digits whose value fits in an `i64`.
pub open spec fn integer_of(n: ParseNode) -> Option<Integer> {
    if n.rule == Rule::integer && n.children.len() > 0 && radix_of(n.children@[0].rule) is Some {
        let radix = radix_of(n.children@[0].rule)->Some_0;
        let d = without_separators(n.children@[0].text@);
        if d.len() > 0 && all_digits(d, radix) && digits_value(d, radix) <= i64::MAX {
            Some(
                Integer {
                    value: digits_value(d, radix) as i64,
                    radix: radix as usize,
                    location: n.loc(),
                },
            )
        } else {
            None
        }
    } else {
        None
    }
}

proof fn lemma_strip_push(s: Seq<char>, c: char)
    ensures
        without_separators(s.push(c)) == if c == '_' {
            without_separators(s)
        } else {
            without_separators(s).push(c)
        },
{
    assert(s.push(c).drop_last() =~= s);
}

/// Digits appended after valid digits never lower the value.
proof fn lemma_value_grows(d: Seq<char>, e: Seq<char>, radix: nat)
    requires
        radix >= 1,
    ensures
        digits_value(d + e, radix) >= digits_value(d, radix),
    decreases e.len(),
{
    if e.len() == 0 {
        assert(d + e =~= d);
    } else {
        lemma_value_grows(d, e.drop_last(), radix);
        assert((d + e).drop_last() =~= d + e.drop_last());
        let v = digits_value(d + e.drop_last(), radix);
        assert(v * radix >= v) by (nonlinear_arith)
            requires
                radix >= 1,
        ;
    }
}

proof fn lemma_strip_append(s: Seq<char>, t: Seq<char>)
    ensures
        without_separators(s + t) == without_separators(s) + without_separators(t),
    decreases t.len(),
{
    if t.len() == 0 {
        assert(s + t =~= s);
        assert(without_separators(s) + without_separators(t) =~= without_separators(s));
    } else {
        lemma_strip_append(s, t.drop_last());
        assert((s + t).drop_last() =~= s + t.drop_last());
        if t.last() != '_' {
            assert(without_separators(s) + without_separators(t.drop_last()).push(t.last())
                =~= (without_separators(s) + without_separators(t.drop_last())).push(t.last()));
        }
    }
}

impl Integer {
    pub fn from_node(n: &ParseNode) -> (r: Result<Integer, ParseError>)
        ensures
            match integer_of(*n) {
                Some(i) => r == Ok::<Integer, ParseError>(i),
                None => r == Err::<Integer, ParseError>(ParseError::fault(n)),
            },
    {
        let fault = ParseError::AstGeneration { rule: n.rule, location: n.location() };
        if n.rule != Rule::integer || n.children.len() == 0 {
            return Err(fault);
        }
        let inner = &n.children[0];
        let radix: u64 = match inner.rule {
            Rule::integer_decimal => 10,
            Rule::integer_hexadecimal => 16,
            Rule::integer_octal => 8,
            Rule::integer_binary => 2,
            Rule::integer_zero => 10,
            _ => {
                return Err(fault);
            },
        };
        let text = inner.text.as_str();
        let len = text.unicode_len();
        let ghost s = inner.text@;
        let ghost rd = radix as nat;
        assert(radix_of(inner.rule) == Some(rd));
        assert(fault == ParseError::fault(n));
        let mut value: u64 = 0;
        let mut seen: bool = false;
        let mut i: usize = 0;
        while i < len
            invariant
                len == s.len(),
                s == text@,
                n.rule == Rule::integer,
                n.children.len() > 0,
                s == n.children@[0].text@,
                radix_of(n.children@[0].rule) == Some(rd),
                fault == ParseError::fault(n),
                rd == radix,
                2 <= radix <= 16,
                i <= len,
                seen == (without_separators(s.subrange(0, i as int)).len() > 0),
                all_digits(without_separators(s.subrange(0, i as int)), rd),
                value == digits_value(without_separators(s.subrange(0, i as int)), rd),
                value <= i64::MAX,
            decreases len - i,
        {
            let c = text.get_char(i);
            proof {
                assert(s.subrange(0, i + 1) =~= s.subrange(0, i as int).push(c));
                lemma_strip_push(s.subrange(0, i as int), c);
            }
            if c != '_' {
                let digit: u64 = if '0' <= c && c <= '9' {
                    (c as u64) - ('0' as u64)
                } else if 'a' <= c && c <= 'z' {
                    (c as u64) - ('a' as u64) + 10
                } else if 'A' <= c && c <= 'Z' {
                    (c as u64) - ('A' as u64) + 10
                } else {
                    36
                };
                let ghost prefix = without_separators(s.subrange(0, i as int));
                let ghost next = prefix.push(c);
                assert(digit == digit_of(c));
                assert(next.drop_last() =~= prefix);
                assert(next.last() == c);
                if digit >= radix {
                    proof {
                        lemma_strip_append(s.subrange(0, i + 1), s.subrange(i + 1, s.len() as int));
                        assert(s.subrange(0, i + 1) + s.subrange(i + 1, s.len() as int) =~= s);
                        let full = without_separators(s);
                        assert(full[next.len() - 1] == c);
                        assert(!all_digits(full, rd));
                    }
                    return Err(fault);
                }
                if value > (0x7fff_ffff_ffff_ffffu64 - digit) / radix {
                    proof {
                        assert(value * rd + digit > i64::MAX) by (nonlinear_arith)
                            requires
                                value > (i64::MAX - digit) / (rd as int),
                                rd >= 2,
                                digit < rd,
                        ;
                        let rest = without_separators(s.subrange(i + 1, s.len() as int));
                        lemma_strip_append(s.subrange(0, i + 1), s.subrange(i + 1, s.len() as int));
                        assert(s.subrange(0, i + 1) + s.subrange(i + 1, s.len() as int) =~= s);
                        lemma_value_grows(next, rest, rd);
                        assert(digits_value(next, rd) == value * rd + digit);
                        assert(without_separators(s) == next + rest);
                    }
                    return Err(fault);
                }
                assert(value * radix + digit <= i64::MAX) by (nonlinear_arith)
                    requires
                        value <= (i64::MAX - digit) / (radix as int),
                        radix >= 2,
                        digit < radix,
                ;
                value = value * radix + digit;
                seen = true;
                assert(all_digits(next, rd)) by {
                    assert forall|j: int| 0 <= j < next.len() implies digit_of(#[trigger] next[j])
                        < rd by {
                        if j < prefix.len() {
                            assert(next[j] == prefix[j]);
                        }
                    }
                }
            }
            i += 1;
        }
        assert(s.subrange(0, len as int) =~= s);
        if !seen {
            return Err(fault);
        }
        Ok(Integer { value: value as i64, radix: radix as usize, location: n.location() })
    }
}

} // verus!
