//! A Belarus phone number in its single normal form `+375` followed by nine
//! digits.
use crate::customer_contact_book::error::PhoneNumberError;
use crate::text::push_char;
use vstd::prelude::*;
use vstd::string::{StrSliceExecFns, StringExecFns};

verus! {

/// A phone number, always stored as `+375XXXXXXXXX`.
#[derive(Debug, Clone, PartialEq, Eq)]
pub struct PhoneNumber(String);

impl View for PhoneNumber {
    type V = Seq<char>;

    closed spec fn view(&self) -> Seq<char> {
        self.0@
    }
}

/// `c` is one of the ten ASCII digits.
pub open spec fn is_ascii_digit(c: char) -> bool {
    48 <= (c as u32) <= 57
}

/// `c` has the Unicode `White_Space` property (what `char::is_whitespace`
/// tests, and what `str::trim` removes).
pub open spec fn is_white_space(c: char) -> bool {
    let v = c as u32;
    ||| 0x09 <= v <= 0x0D
    ||| v == 0x20
    ||| v == 0x85
    ||| v == 0xA0
    ||| v == 0x1680
    ||| 0x2000 <= v <= 0x200A
    ||| v == 0x2028
    ||| v == 0x2029
    ||| v == 0x202F
    ||| v == 0x205F
    ||| v == 0x3000
}

/// The input trims to the empty string: every character is white space.
pub open spec fn is_blank(s: Seq<char>) -> bool {
    forall|i: int| 0 <= i < s.len() ==> is_white_space(#[trigger] s[i])
}

/// The test for an ASCII digit, as a function value.
pub open spec fn ascii_digit_test() -> spec_fn(char) -> bool {
    |c: char| is_ascii_digit(c)
}

/// The ASCII digits of `s`, in order.
pub open spec fn ascii_digits(s: Seq<char>) -> Seq<char> {
    s.filter(ascii_digit_test())
}

/// What parsing `s` gives: `Empty` if it trims to nothing; otherwise its
/// digits, which must be twelve starting with `375` (international form) or
/// eleven starting with `80` (local form, whose `80` becomes `375`); the
/// result is `+375` followed by the nine subscriber digits.
pub open spec fn parse_phone_number(s: Seq<char>) -> Result<Seq<char>, PhoneNumberError> {
    let d = ascii_digits(s);
    if is_blank(s) {
        Err(PhoneNumberError::Empty)
    } else if d.len() == 12 && d.take(3) == "375"@ {
        Ok("+375"@ + d.skip(3))
    } else if d.len() == 11 && d.take(2) == "80"@ {
        Ok("+375"@ + d.skip(2))
    } else {
        Err(PhoneNumberError::InvalidFormat)
    }
}

fn is_ascii_digit_char(c: char) -> (b: bool)
    ensures
        b == is_ascii_digit(c),
{
    let v = c as u32;
    48 <= v && v <= 57
}

fn is_white_space_char(c: char) -> (b: bool)
    ensures
        b == is_white_space(c),
{
    let v = c as u32;
    (0x09 <= v && v <= 0x0D) || v == 0x20 || v == 0x85 || v == 0xA0 || v == 0x1680 || (0x2000 <= v
        && v <= 0x200A) || v == 0x2028 || v == 0x2029 || v == 0x202F || v == 0x205F || v == 0x3000
}

impl PhoneNumber {
    /// Parses and normalizes a Belarus phone number. Separators of any kind
    /// are ignored: only the ASCII digits of the input count.
    pub fn parse(input_number: &str) -> (r: Result<PhoneNumber, PhoneNumberError>)
        ensures
            match r {
                Ok(p) => parse_phone_number(input_number@) == Ok::<Seq<char>, PhoneNumberError>(p@),
                Err(e) => parse_phone_number(input_number@) == Err::<Seq<char>, PhoneNumberError>(e),
            },
            r matches Ok(p) ==> {
                ||| (ascii_digits(input_number@).len() == 12 && ascii_digits(input_number@).take(3)
                    == "375"@ && p@ == "+"@ + ascii_digits(input_number@))
                ||| (ascii_digits(input_number@).len() == 11 && ascii_digits(input_number@).take(2)
                    == "80"@ && p@ == "+375"@ + ascii_digits(input_number@).skip(2))
            },
    {
        proof {
            lemma_parse_accepts_exactly_belarus_numbers(input_number@);
        }
        let ghost s = input_number@;
        let n = input_number.unicode_len();
        let mut blank = true;
        let mut digits: Vec<char> = Vec::new();
        let mut i: usize = 0;
        while i < n
            invariant
                n == s.len(),
                s == input_number@,
                0 <= i <= n,
                blank == is_blank(s.take(i as int)),
                digits@ == ascii_digits(s.take(i as int)),
            decreases n - i,
        {
            let c = input_number.get_char(i);
            proof {
                let t = s.take(i as int + 1);
                assert(t.drop_last() =~= s.take(i as int));
                assert(t.last() == c);
                reveal(Seq::filter);
            }
            if !is_white_space_char(c) {
                blank = false;
            }
            if is_ascii_digit_char(c) {
                digits.push(c);
            }
            i = i + 1;
        }
        proof {
            assert(s.take(n as int) =~= s);
        }
        if blank {
            return Err(PhoneNumberError::Empty);
        }
        let len = digits.len();
        let ghost d = digits@;
        proof {
            reveal_strlit("375");
            reveal_strlit("80");
            if len >= 3 {
                if d[0] == '3' && d[1] == '7' && d[2] == '5' {
                    assert(d.take(3) =~= "375"@);
                }
                if d.take(3) == "375"@ {
                    assert(d.take(3)[0] == "375"@[0] && d.take(3)[1] == "375"@[1] && d.take(3)[2]
                        == "375"@[2]);
                }
            }
            if len >= 2 {
                if d[0] == '8' && d[1] == '0' {
                    assert(d.take(2) =~= "80"@);
                }
                if d.take(2) == "80"@ {
                    assert(d.take(2)[0] == "80"@[0] && d.take(2)[1] == "80"@[1]);
                }
            }
        }
        let start: usize = if len == 12 && digits[0] == '3' && digits[1] == '7' && digits[2] == '5' {
            3
        } else if len == 11 && digits[0] == '8' && digits[1] == '0' {
            2
        } else {
            return Err(PhoneNumberError::InvalidFormat);
        };
        let mut out = String::from_str("+375");
        let mut j: usize = start;
        while j < len
            invariant
                start <= j <= len,
                len == d.len(),
                d == digits@,
                start == 2 || start == 3,
                out@ == "+375"@ + d.subrange(start as int, j as int),
            decreases len - j,
        {
            push_char(&mut out, digits[j]);
            proof {
                assert(d.subrange(start as int, j as int + 1) =~= d.subrange(start as int, j as int).push(d[j as int]));
            }
            j = j + 1;
        }
        proof {
            assert(d.subrange(start as int, len as int) =~= d.skip(start as int));
        }
        Ok(PhoneNumber(out))
    }

    /// The normalized number, `+375XXXXXXXXX`.
    pub fn as_str(&self) -> (s: &str)
        ensures
            s@ == self@,
    {
        self.0.as_str()
    }

    /// The normalized number as an owned string (what `Display` shows).
    pub fn to_string(&self) -> (s: String)
        ensures
            s@ == self@,
    {
        self.0.clone()
    }

    /// A second value holding the same number.
    pub fn duplicate(&self) -> (p: PhoneNumber)
        ensures
            p@ == self@,
    {
        PhoneNumber(self.0.clone())
    }
}

/// A sequence of ASCII digits is its own digit sequence.
proof fn lemma_ascii_digits_of_digits(s: Seq<char>)
    requires
        forall|i: int| 0 <= i < s.len() ==> is_ascii_digit(#[trigger] s[i]),
    ensures
        ascii_digits(s) == s,
    decreases s.len(),
{
    reveal(Seq::filter);
    if s.len() > 0 {
        lemma_ascii_digits_of_digits(s.drop_last());
        assert(s.drop_last().push(s.last()) =~= s);
    }
}

/// Which inputs are accepted and what they become, in terms of the input's
/// ASCII digits `d`: blank input is `Empty`; twelve digits are accepted
/// exactly when they start with `375`, and the number is `+` followed by
/// exactly those digits; eleven digits are accepted exactly when they start
/// with `80`, and the number is `+375` followed by the nine digits after the
/// `80`; every other input is `InvalidFormat`.
pub proof fn lemma_parse_accepts_exactly_belarus_numbers(s: Seq<char>)
    ensures
        is_blank(s) ==> parse_phone_number(s) == Err::<Seq<char>, PhoneNumberError>(
            PhoneNumberError::Empty,
        ),
        !is_blank(s) && ascii_digits(s).len() == 12 && ascii_digits(s).take(3) == "375"@
            ==> parse_phone_number(s) == Ok::<Seq<char>, PhoneNumberError>(
            "+"@ + ascii_digits(s),
        ),
        !is_blank(s) && ascii_digits(s).len() == 11 && ascii_digits(s).take(2) == "80"@
            ==> parse_phone_number(s) == Ok::<Seq<char>, PhoneNumberError>(
            "+375"@ + ascii_digits(s).skip(2),
        ),
        parse_phone_number(s) matches Ok(p) ==> {
            ||| (ascii_digits(s).len() == 12 && ascii_digits(s).take(3) == "375"@ && p == "+"@
                + ascii_digits(s))
            ||| (ascii_digits(s).len() == 11 && ascii_digits(s).take(2) == "80"@ && p == "+375"@
                + ascii_digits(s).skip(2))
        },
        !is_blank(s) && !(ascii_digits(s).len() == 12 && ascii_digits(s).take(3) == "375"@) && !(
        ascii_digits(s).len() == 11 && ascii_digits(s).take(2) == "80"@) ==> parse_phone_number(s)
            == Err::<Seq<char>, PhoneNumberError>(PhoneNumberError::InvalidFormat),
{
    reveal_strlit("+375");
    reveal_strlit("+");
    reveal_strlit("375");
    let d = ascii_digits(s);
    if d.len() == 12 && d.take(3) == "375"@ {
        assert(d.take(3)[0] == '3' && d.take(3)[1] == '7' && d.take(3)[2] == '5');
        assert("+375"@ + d.skip(3) =~= "+"@ + d);
    }
}

/// Every parsed number is `+375` followed by nine ASCII digits.
pub proof fn lemma_parsed_number_normal_form(s: Seq<char>)
    ensures
        parse_phone_number(s) matches Ok(p) ==> {
            &&& p.len() == 13
            &&& p.take(4) == "+375"@
            &&& forall|i: int| 4 <= i < 13 ==> is_ascii_digit(#[trigger] p[i])
        },
{
    reveal_strlit("+375");
    reveal_strlit("375");
    reveal_strlit("80");
    let d = ascii_digits(s);
    if let Ok(p) = parse_phone_number(s) {
        let k: int = if d.len() == 12 { 3 } else { 2 };
        assert(p == "+375"@ + d.skip(k));
        assert(p.take(4) =~= "+375"@);
        assert forall|i: int| 4 <= i < 13 implies is_ascii_digit(#[trigger] p[i]) by {
            assert(p[i] == d[k + i - 4]);
            s.lemma_filter_pred(ascii_digit_test(), k + i - 4);
        }
    }
}

/// The digits of a number in normal form are everything after the `+`.
proof fn lemma_digits_of_normal_form(p: Seq<char>)
    requires
        p.len() == 13,
        p.take(4) == "+375"@,
        forall|i: int| 4 <= i < 13 ==> is_ascii_digit(#[trigger] p[i]),
    ensures
        ascii_digits(p) == p.skip(1),
        p.skip(1).take(3) == "375"@,
        !is_blank(p),
{
    reveal_strlit("+375");
    reveal_strlit("375");
    let q = p.skip(1);
    assert("+375"@ =~= seq!['+', '3', '7', '5']);
    assert(p.take(4)[0] == '+');
    assert(p =~= seq!['+'] + q);
    assert forall|i: int| 0 <= i < q.len() implies is_ascii_digit(#[trigger] q[i]) by {
        assert(q[i] == p[i + 1]);
        if i == 0 {
            assert(p.take(4)[1] == "+375"@[1]);
            assert(q[i] == '3');
        } else if i == 1 {
            assert(p.take(4)[2] == "+375"@[2]);
            assert(q[i] == '7');
        } else if i == 2 {
            assert(p.take(4)[3] == "+375"@[3]);
            assert(q[i] == '5');
        }
    }
    lemma_ascii_digits_of_digits(q);
    Seq::filter_distributes_over_add(seq!['+'], q, ascii_digit_test());
    reveal_with_fuel(Seq::filter, 2);
    assert(seq!['+'].filter(ascii_digit_test()) =~= Seq::<char>::empty());
    assert(seq!['+'] + q == p);
    assert(Seq::<char>::empty() + q =~= q);
    assert(q.take(3) =~= p.take(4).skip(1));
    assert(p.take(4).skip(1) =~= "375"@);
    assert(!is_white_space(p[0]));
}

/// Normalization is stable: parsing a parsed number gives it back.
pub proof fn lemma_parse_normalized_is_identity(s: Seq<char>)
    ensures
        parse_phone_number(s) matches Ok(p) ==> parse_phone_number(p) == Ok::<
            Seq<char>,
            PhoneNumberError,
        >(p),
{
    if let Ok(p) = parse_phone_number(s) {
        lemma_parsed_number_normal_form(s);
        lemma_digits_of_normal_form(p);
        reveal_strlit("+375");
        let q = p.skip(1);
        assert(p.take(4) =~= "+375"@);
        assert("+375"@ + q.skip(3) =~= p);
    }
}

} // verus!
