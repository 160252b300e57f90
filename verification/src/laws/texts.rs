//! Laws on texts: numbers, padding, white space and beginnings.

use vstd::prelude::*;

use crate::model::FlowSummary;
use crate::store::{db_path, Location, APPLICATION, HOME_VARIABLE, ORGANIZATION, QUALIFIER};
use crate::text::{
    align_left, align_right, begin, blank, decimal, decimal_text, integer, integer_text, same, white_space,
};

verus! {

/// The number that a text of decimal digits stands for.
pub open spec fn number_read(text: Seq<char>) -> int
    decreases text.len(),
{
    if text.len() == 0 {
        0
    } else {
        10 * number_read(text.drop_last()) + (text.last() as int - '0' as int)
    }
}

/// A natural number is written in decimal digits that read as the number, and not with a zero in
/// front of others.
pub proof fn law_decimal_text_reads_back(n: nat)
    ensures
        decimal_text(n).len() > 0,
        forall|i: int| 0 <= i < decimal_text(n).len() ==> '0' <= #[trigger] decimal_text(n)[i] <= '9',
        decimal_text(n).len() > 1 ==> decimal_text(n)[0] != '0',
        number_read(decimal_text(n)) == n,
    decreases n,
{
    reveal_strlit("0123456789");
    reveal_with_fuel(number_read, 2);
    if n >= 10 {
        law_decimal_text_reads_back(n / 10);
        assert(decimal_text(n).drop_last() =~= decimal_text(n / 10));
        assert(n / 10 > 0);
        if decimal_text(n / 10).len() == 1 {
            assert(decimal_text(n / 10).drop_last() =~= Seq::<char>::empty());
            assert(decimal_text(n / 10).last() == decimal_text(n / 10)[0]);
        }
    } else {
        assert(decimal_text(n).drop_last() =~= Seq::<char>::empty());
    }
}

/// What `decimal` writes are digits that read as the number, and not with a zero in front of
/// others.
pub proof fn law_decimal_reads_back(n: u64, r: String)
    requires
        call_ensures(decimal, (n,), r),
    ensures
        r@.len() > 0,
        forall|i: int| 0 <= i < r@.len() ==> '0' <= #[trigger] r@[i] <= '9',
        r@.len() > 1 ==> r@[0] != '0',
        number_read(r@) == n,
{
    law_decimal_text_reads_back(n as nat);
}

/// A negative integer is written as a minus sign and its amount; one that is not is written as a
/// natural number.
pub proof fn law_integer_text_reads_back(n: int)
    ensures
        n >= 0 ==> integer_text(n) == decimal_text(n as nat),
        n < 0 ==> integer_text(n).len() > 1 && integer_text(n)[0] == '-' && number_read(
            integer_text(n).skip(1),
        ) == -n && integer_text(n).skip(1) == decimal_text((-n) as nat),
{
    if n < 0 {
        reveal_strlit("-");
        law_decimal_text_reads_back((-n) as nat);
        assert(integer_text(n).skip(1) =~= decimal_text((-n) as nat));
    }
}

/// What `integer` writes reads as the integer, with a minus sign in front where it is negative.
pub proof fn law_integer_reads_back(n: i64, r: String)
    requires
        call_ensures(integer, (n,), r),
    ensures
        n >= 0 ==> number_read(r@) == n && r@.len() > 0 && r@[0] != '-',
        n < 0 ==> r@.len() > 1 && r@[0] == '-' && number_read(r@.skip(1)) == -n,
        forall|i: int| 1 <= i < r@.len() ==> '0' <= #[trigger] r@[i] <= '9',
{
    law_integer_text_reads_back(n as int);
    if n >= 0 {
        law_decimal_text_reads_back(n as nat);
    } else {
        law_decimal_text_reads_back((-n) as nat);
        assert forall|i: int| 1 <= i < r@.len() implies '0' <= #[trigger] r@[i] <= '9' by {
            assert(r@[i] == r@.skip(1)[i - 1]);
        }
    }
}

/// Aligned to the right, a text stands whole at the end, after as many spaces as it lacks of the
/// width.
pub proof fn law_align_right(text: &str, width: usize, r: String)
    requires
        call_ensures(align_right, (text, width), r),
    ensures
        r@.len() == if text@.len() < width {
            width as int
        } else {
            text@.len() as int
        },
        r@.skip(r@.len() - text@.len()) == text@,
        forall|i: int| 0 <= i < r@.len() - text@.len() ==> #[trigger] r@[i] == ' ',
{
    assert(r@.skip(r@.len() - text@.len()) =~= text@);
}

/// Aligned to the left, a text stands whole at the beginning, before as many spaces as it lacks
/// of the width.
pub proof fn law_align_left(text: &str, width: usize, r: String)
    requires
        call_ensures(align_left, (text, width), r),
    ensures
        r@.len() == if text@.len() < width {
            width as int
        } else {
            text@.len() as int
        },
        r@.take(text@.len() as int) == text@,
        forall|i: int| text@.len() <= i < r@.len() ==> #[trigger] r@[i] == ' ',
{
    assert(r@.take(text@.len() as int) =~= text@);
}

/// The beginning of a text is the text where it is short enough, and otherwise as many of its
/// characters as are allowed, from the first on.
pub proof fn law_beginning(text: &str, most: usize, r: String)
    requires
        call_ensures(begin, (text, most), r),
    ensures
        r@.len() == if text@.len() < most {
            text@.len() as int
        } else {
            most as int
        },
        forall|i: int| 0 <= i < r@.len() ==> #[trigger] r@[i] == text@[i],
{
}

/// White space are the control characters from tab to carriage return, next line, and the spaces
/// and separators of Unicode, and no other characters.
pub proof fn law_white_space(c: char, r: bool)
    requires
        call_ensures(white_space, (c,), r),
    ensures
        r <==> 9 <= c as int <= 13 || 0x2000 <= c as int <= 0x200a || set![
            0x20int,
            0x85,
            0xa0,
            0x1680,
            0x2028,
            0x2029,
            0x202f,
            0x205f,
            0x3000,
        ].contains(c as int),
{
}

/// A text is blank exactly if each of its characters is one of those.
pub proof fn law_blank(text: &str, r: bool)
    requires
        call_ensures(blank, (text,), r),
    ensures
        r <==> forall|i: int|
            #![trigger text@[i]]
            0 <= i < text@.len() ==> {
                let c = text@[i] as int;
                9 <= c <= 13 || 0x2000 <= c <= 0x200a || c == 0x20 || c == 0x85 || c == 0xa0 || c
                    == 0x1680 || c == 0x2028 || c == 0x2029 || c == 0x202f || c == 0x205f || c
                    == 0x3000
            },
{
}

/// Two texts are the same exactly if they have the same characters.
pub proof fn law_same(a: &str, b: &str, r: bool)
    requires
        call_ensures(same, (a, b), r),
    ensures
        r <==> a@.len() == b@.len() && forall|i: int| 0 <= i < a@.len() ==> #[trigger] a@[i] == b@[i],
{
    if a@.len() == b@.len() && forall|i: int| 0 <= i < a@.len() ==> #[trigger] a@[i] == b@[i] {
        assert(a@ =~= b@);
    }
}

/// The address of a flow is its scheme, the separator, its host and its path.
pub proof fn law_address(flow: &FlowSummary, r: String)
    requires
        call_ensures(FlowSummary::url, (flow,), r),
    ensures
        r@ == flow.scheme@ + "://"@ + flow.host@ + flow.path@,
{
}

/// The home is named by an environment variable, and the platform's directory is that of the
/// program's own name.
pub proof fn law_store_names()
    ensures
        HOME_VARIABLE@ == "SNARE_HOME"@,
        QUALIFIER@ == "dev"@,
        ORGANIZATION@ == "Snare"@,
        APPLICATION@ == "snare"@,
{
}

/// The store is the file `flows.sqlite`: in `data` below the home where that is given, whatever
/// the platform's directory, else right below that directory, else in the working directory.
pub proof fn law_store_location<P>(home: Option<P>, data_dir: Option<P>, r: Location<P>)
    requires
        call_ensures(db_path::<P>, (home, data_dir), r),
    ensures
        r.base == if home is Some {
            home
        } else {
            data_dir
        },
        r.parts@.len() == if home is Some {
            2int
        } else {
            1
        },
        r.parts@.last()@ == "flows.sqlite"@,
        home is Some ==> r.parts@[0]@ == "data"@,
{
    let names = crate::store::names(r.parts@);
    assert(names.len() == r.parts@.len());
    assert(names.last() == r.parts@.last()@);
    assert(names[0] == r.parts@[0]@);
}

} // verus!
