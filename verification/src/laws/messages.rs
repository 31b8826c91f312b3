//! Pixel formats, and the numbers in messages.

use vstd::prelude::*;

use crate::format::{pixel_format, Constants, PixelFormat};
use crate::text::{decimal, decimal_text, digit, with_number};

verus! {

/// The number that decimal digits stand for.
pub open spec fn value_of(digits: Seq<char>) -> int
    decreases digits.len(),
{
    if digits.len() == 0 {
        0
    } else {
        value_of(digits.drop_last()) * 10 + (digits.last() as int - '0' as int)
    }
}

proof fn lemma_decimal_is_read_back(n: nat)
    ensures
        decimal(n).len() > 0,
        forall|k: int| 0 <= k < decimal(n).len() ==> '0' <= #[trigger] decimal(n)[k] <= '9',
        n > 0 ==> decimal(n)[0] != '0',
        n == 0 ==> decimal(n).len() == 1,
        value_of(decimal(n)) == n,
    decreases n,
{
    reveal_with_fuel(value_of, 2);
    if n < 10 {
        assert(decimal(n) == seq![digit(n as int)]);
        assert(decimal(n).drop_last() =~= Seq::empty());
        assert(decimal(n).last() as int == n + '0' as int);
    } else {
        lemma_decimal_is_read_back(n / 10);
        let front = decimal(n / 10);
        let last = digit((n % 10) as int);
        assert(decimal(n) == front.push(last));
        assert(decimal(n).drop_last() =~= front);
        assert(decimal(n).last() == last);
        assert(last as int == n % 10 + '0' as int);
        assert(decimal(n)[0] == front[0]);
        assert forall|k: int| 0 <= k < decimal(n).len() implies '0' <= #[trigger] decimal(n)[k]
            <= '9' by {
            if k < front.len() {
                assert(decimal(n)[k] == front[k]);
            }
        }
    }
}

/// A number that is written out consists of digits, has no zero in front but for zero
/// itself, and reads back as the number.
pub proof fn law_a_number_reads_back(n: u64, text: String)
    requires
        call_ensures(decimal_text, (n,), text),
    ensures
        text@.len() > 0,
        forall|k: int| 0 <= k < text@.len() ==> '0' <= #[trigger] text@[k] <= '9',
        text@[0] == '0' ==> text@.len() == 1,
        value_of(text@) == n,
{
    lemma_decimal_is_read_back(n as nat);
}

/// A message around a number is the text before it, the number written out, and the
/// text behind it.
pub proof fn law_a_message_holds_its_number(
    before: &str,
    n: u64,
    after: &str,
    text: String,
    number: String,
)
    requires
        call_ensures(with_number, (before, n, after), text),
        call_ensures(decimal_text, (n,), number),
    ensures
        text@ == before@ + number@ + after@,
{
}

/// A format is taken for the first in the table that is known under its id: each of
/// the four has its own pixels, with the padding byte of the first two left unread. A
/// format that is known under none is refused, with its id in the message.
pub proof fn law_formats_are_looked_up_in_order(
    constants: Constants,
    id: u32,
    format: Result<PixelFormat, String>,
    number: String,
)
    requires
        call_ensures(pixel_format, (&constants, id), format),
        call_ensures(decimal_text, (id as u64,), number),
    ensures
        format matches Ok(known) && known is Bgr0 <==> id == constants.video_format_bgrx,
        format matches Ok(known) && known is Rgb0 <==> id == constants.video_format_rgbx && id
            != constants.video_format_bgrx,
        format matches Ok(known) && known is Bgra <==> id == constants.video_format_bgra && id
            != constants.video_format_bgrx && id != constants.video_format_rgbx,
        format matches Ok(known) && known is Rgba <==> id == constants.video_format_rgba && id
            != constants.video_format_bgrx && id != constants.video_format_rgbx && id
            != constants.video_format_bgra,
        format is Err <==> id != constants.video_format_bgrx && id != constants.video_format_rgbx
            && id != constants.video_format_bgra && id != constants.video_format_rgba,
        format is Err ==> format->Err_0@ == "the compositor negotiated SPA video format "@
            + number@
            + ", which this helper does not know how to convert. It should only ever pick one of the four formats osc_build_enum_format advertises."@,
{
}

} // verus!
