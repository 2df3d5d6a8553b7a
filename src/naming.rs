use vstd::prelude::*;

use crate::remittance::Remittance;
use crate::text::push_char;

verus! {

/// A character that may stand in a file name: `/`, `\` and the space become
/// `_`.
pub open spec fn file_safe(c: char) -> char {
    if c == '/' || c == '\\' || c == ' ' {
        '_'
    } else {
        c
    }
}

/// The image file name of a payment before it is made safe:
/// `epc-[<bic>-]<account>[-<remittance>]-qr-code.png`.
pub open spec fn raw_file_name(
    bic: Option<Seq<char>>,
    account: Seq<char>,
    remittance: Option<Seq<char>>,
) -> Seq<char> {
    seq!['e', 'p', 'c', '-'] + match bic {
        Some(b) => b + seq!['-'],
        None => seq![],
    } + account + match remittance {
        Some(r) => seq!['-'] + r,
        None => seq![],
    } + seq!['-', 'q', 'r', '-', 'c', 'o', 'd', 'e', '.', 'p', 'n', 'g']
}

/// `s` without its spaces.
pub open spec fn without_spaces(s: Seq<char>) -> Seq<char>
    decreases s.len(),
{
    if s.len() == 0 {
        seq![]
    } else if s.last() == ' ' {
        without_spaces(s.drop_last())
    } else {
        without_spaces(s.drop_last()).push(s.last())
    }
}

/// Appends `s` to `out` with each character made safe for a file name.
fn push_file_safe(out: &mut String, s: &str)
    ensures
        final(out)@ == old(out)@ + s@.map_values(|c: char| file_safe(c)),
{
    let n = s.unicode_len();
    let mut i: usize = 0;
    while i < n
        invariant
            n == s@.len(),
            i <= n,
            out@ == old(out)@ + s@.subrange(0, i as int).map_values(|c: char| file_safe(c)),
        decreases n - i,
    {
        let c = s.get_char(i);
        let safe = if c == '/' || c == '\\' || c == ' ' {
            '_'
        } else {
            c
        };
        push_char(out, safe);
        assert(s@.subrange(0, i + 1).map_values(|c: char| file_safe(c)) =~= s@.subrange(
            0,
            i as int,
        ).map_values(|c: char| file_safe(c)).push(safe));
        i = i + 1;
    }
    assert(s@.subrange(0, n as int) =~= s@);
}

/// The name of the image file for a payment to `account` at the bank `bic`
/// with the given remittance, with `/`, `\` and spaces turned into `_`.
pub fn image_file_name(bic: Option<&str>, account: &str, remittance: Option<&Remittance>) -> (r:
    String)
    ensures
        r@ == raw_file_name(
            match bic {
                Some(b) => Some(b@),
                None => None,
            },
            account@,
            match remittance {
                Some(m) => Some(m.content()),
                None => None,
            },
        ).map_values(|c: char| file_safe(c)),
{
    let mut out = String::new();
    push_file_safe(&mut out, "epc-");
    let ghost parts: Seq<char> = seq!['e', 'p', 'c', '-'];
    proof {
        reveal_strlit("epc-");
        assert("epc-"@ =~= parts);
        assert(out@ =~= parts.map_values(|c: char| file_safe(c)));
    }
    if let Some(b) = bic {
        push_file_safe(&mut out, b);
        push_file_safe(&mut out, "-");
        proof {
            reveal_strlit("-");
            assert("-"@ =~= seq!['-']);
            parts = parts + b@ + seq!['-'];
            assert(out@ =~= parts.map_values(|c: char| file_safe(c)));
        }
    }
    push_file_safe(&mut out, account);
    proof {
        parts = parts + account@;
        assert(out@ =~= parts.map_values(|c: char| file_safe(c)));
    }
    if let Some(m) = remittance {
        push_file_safe(&mut out, "-");
        push_file_safe(&mut out, m.text());
        proof {
            reveal_strlit("-");
            assert("-"@ =~= seq!['-']);
            parts = parts + seq!['-'] + m.content();
            assert(out@ =~= parts.map_values(|c: char| file_safe(c)));
        }
    }
    push_file_safe(&mut out, "-qr-code.png");
    proof {
        reveal_strlit("-qr-code.png");
        let tail = seq!['-', 'q', 'r', '-', 'c', 'o', 'd', 'e', '.', 'p', 'n', 'g'];
        assert("-qr-code.png"@ =~= tail);
        parts = parts + tail;
        assert(out@ =~= parts.map_values(|c: char| file_safe(c)));
        assert(parts =~= raw_file_name(
            match bic {
                Some(b) => Some(b@),
                None => None,
            },
            account@,
            match remittance {
                Some(m) => Some(m.content()),
                None => None,
            },
        ));
    }
    out
}

/// An account number as it is entered, without its spaces.
pub fn remove_spaces(s: &str) -> (r: String)
    ensures
        r@ == without_spaces(s@),
{
    let n = s.unicode_len();
    let mut out = String::new();
    let mut i: usize = 0;
    while i < n
        invariant
            n == s@.len(),
            i <= n,
            out@ == without_spaces(s@.subrange(0, i as int)),
        decreases n - i,
    {
        let c = s.get_char(i);
        assert(s@.subrange(0, i + 1).drop_last() =~= s@.subrange(0, i as int));
        if c != ' ' {
            push_char(&mut out, c);
        }
        i = i + 1;
    }
    assert(s@.subrange(0, n as int) =~= s@);
    out
}

} // verus!
