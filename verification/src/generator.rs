//! The log generator: given a month, its day count, the items-per-day
//! count, the activity pool and the optional remark settings, it produces
//! the text block for that month.  The text is pinned down exactly by a
//! mathematical model, relative to the random draws made on the way,
//! which are gathered in a per-day plan.

use vstd::prelude::*;
use crate::config::{DailyRemarkConfig, CHANCE_DENOM};
use crate::rng;
use vstd::arithmetic::div_mod::{lemma_multiply_divide_lt, lemma_fundamental_div_mod_converse_div};

verus! {

/// The random draws behind one non-wake-up activity line: the minute and
/// the index into the activity pool.
pub struct ItemDraw {
    pub minute: u32,
    pub activity_index: usize,
}

/// The random draws behind one day block: the optional remark choice, the
/// minute of the wake-up line, and one draw per further activity line.
pub struct DayPlan {
    pub remark_index: Option<usize>,
    pub wake_minute: u32,
    pub items: Vec<ItemDraw>,
}

/// The decimal digit character for `d` in 0..10.
pub open spec fn spec_digit(d: int) -> char {
    if d == 0 {
        '0'
    } else if d == 1 {
        '1'
    } else if d == 2 {
        '2'
    } else if d == 3 {
        '3'
    } else if d == 4 {
        '4'
    } else if d == 5 {
        '5'
    } else if d == 6 {
        '6'
    } else if d == 7 {
        '7'
    } else if d == 8 {
        '8'
    } else {
        '9'
    }
}

/// Two-digit zero-padded decimal rendering of `n` in 0..100.
pub open spec fn spec_two_digit(n: int) -> Seq<char> {
    seq![spec_digit(n / 10), spec_digit(n % 10)]
}

/// A single line break.
pub open spec fn newline() -> Seq<char> {
    seq!['\n']
}

/// The fixed label of the first activity line of every day.
pub open spec fn wake_label() -> Seq<char> {
    "wake up"@
}

/// The views of the strings of the activity pool.
pub open spec fn pool_view(activities: Seq<String>) -> Seq<Seq<char>> {
    activities.map_values(|s: String| s@)
}

/// The remark prefix as a character sequence; empty without remark
/// settings.
pub open spec fn remark_prefix_view(remarks: Option<DailyRemarkConfig>) -> Seq<char> {
    match remarks {
        Some(rc) => rc.prefix@,
        None => Seq::empty(),
    }
}

/// The views of the remark texts; empty without remark settings.
pub open spec fn remark_contents_view(remarks: Option<DailyRemarkConfig>) -> Seq<Seq<char>> {
    match remarks {
        Some(rc) => rc.contents@.map_values(|s: String| s@),
        None => Seq::empty(),
    }
}

/// The day-header line: two-digit month, two-digit day, line break.
pub open spec fn spec_header_line(month: int, day: int) -> Seq<char> {
    spec_two_digit(month) + spec_two_digit(day) + newline()
}

/// A remark line: the prefix, the chosen remark text, a line break.
pub open spec fn spec_remark_line(prefix: Seq<char>, content: Seq<char>) -> Seq<char> {
    prefix + content + newline()
}

/// An activity line: two-digit hour, two-digit minute, label, line break.
pub open spec fn spec_item_line(hour: int, minute: int, label: Seq<char>) -> Seq<char> {
    spec_two_digit(hour) + spec_two_digit(minute) + label + newline()
}

/// The hour of activity item `i` of a day with `n` items per day.  The
/// first item is the wake-up line at hour 6.  Later items spread from 6
/// o'clock over 19 hours in proportion to `i / (n - 1)`, rounded half
/// away from zero, and wrap past midnight.
pub open spec fn spec_item_hour(i: int, n: int) -> int {
    if i == 0 {
        6
    } else {
        let logical = if n <= 1 {
            25
        } else {
            6 + (38 * i + (n - 1)) / (2 * (n - 1))
        };
        if logical >= 24 {
            logical - 24
        } else {
            logical
        }
    }
}

/// The label of activity item `i`: the wake-up marker for the first item,
/// else the drawn entry of the activity pool.
pub open spec fn spec_item_label(i: int, pool: Seq<Seq<char>>, items: Seq<ItemDraw>) -> Seq<
    char,
> {
    if i == 0 {
        wake_label()
    } else {
        pool[items[i - 1].activity_index as int]
    }
}

/// Activity line `i` of a day, out of `n` per day.
pub open spec fn spec_item_line_at(
    i: int,
    n: int,
    pool: Seq<Seq<char>>,
    wake_minute: int,
    items: Seq<ItemDraw>,
) -> Seq<char> {
    if i == 0 {
        spec_item_line(6, wake_minute, wake_label())
    } else {
        spec_item_line(
            spec_item_hour(i, n),
            items[i - 1].minute as int,
            spec_item_label(i, pool, items),
        )
    }
}

/// The first `k` activity lines of a day with `n` items per day.
pub open spec fn spec_activity_lines(
    k: int,
    n: int,
    pool: Seq<Seq<char>>,
    wake_minute: int,
    items: Seq<ItemDraw>,
) -> Seq<char>
    decreases k,
{
    if k <= 0 {
        Seq::empty()
    } else {
        spec_activity_lines(k - 1, n, pool, wake_minute, items) + spec_item_line_at(
            k - 1,
            n,
            pool,
            wake_minute,
            items,
        )
    }
}

/// The optional remark line of a day: present exactly when the plan drew
/// a remark index.
pub open spec fn spec_remark_part(
    prefix: Seq<char>,
    contents: Seq<Seq<char>>,
    plan: DayPlan,
) -> Seq<char> {
    match plan.remark_index {
        Some(j) => spec_remark_line(prefix, contents[j as int]),
        None => Seq::empty(),
    }
}

/// One day block: the header line, the optional remark line, and the `n`
/// activity lines.
pub open spec fn spec_day_block(
    month: int,
    day: int,
    n: int,
    pool: Seq<Seq<char>>,
    prefix: Seq<char>,
    contents: Seq<Seq<char>>,
    plan: DayPlan,
) -> Seq<char> {
    spec_header_line(month, day) + spec_remark_part(prefix, contents, plan)
        + spec_activity_lines(n, n, pool, plan.wake_minute as int, plan.items@)
}

/// The text of the first `days` day blocks of a month, consecutive blocks
/// separated by one extra line break (a blank line).
pub open spec fn spec_month_text(
    month: int,
    days: int,
    n: int,
    pool: Seq<Seq<char>>,
    prefix: Seq<char>,
    contents: Seq<Seq<char>>,
    plans: Seq<DayPlan>,
) -> Seq<char>
    decreases days,
{
    if days <= 0 {
        Seq::empty()
    } else {
        spec_month_text(month, days - 1, n, pool, prefix, contents, plans) + (if days > 1 {
            newline()
        } else {
            Seq::empty()
        }) + spec_day_block(month, days, n, pool, prefix, contents, plans[days - 1])
    }
}

/// Validity of the draws of one day, against the items-per-day count, the
/// pool size, and the remark settings: the minutes lie in 0..60, every
/// pool index is in range, there is one draw per non-wake-up item, and a
/// remark index exists only where remark settings do, in range.
pub open spec fn day_plan_wf(
    plan: DayPlan,
    n: int,
    pool_len: int,
    remarks: Option<DailyRemarkConfig>,
) -> bool {
    &&& plan.wake_minute <= 59
    &&& plan.items@.len() == n - 1
    &&& forall|k: int|
        0 <= k < n - 1 ==> (#[trigger] plan.items@[k]).minute <= 59
            && plan.items@[k].activity_index < pool_len
    &&& match remarks {
        None => plan.remark_index is None,
        Some(rc) => match plan.remark_index {
            Some(j) => j < rc.contents@.len(),
            None => true,
        },
    }
}

/// A decimal digit character.
pub open spec fn is_decimal_digit(c: char) -> bool {
    c == '0' || c == '1' || c == '2' || c == '3' || c == '4' || c == '5' || c == '6' || c == '7'
        || c == '8' || c == '9'
}

/// No two consecutive line breaks, so no blank line, inside the text.
pub open spec fn has_no_blank_line(s: Seq<char>) -> bool {
    forall|i: int| 0 <= i < s.len() - 1 ==> !(#[trigger] s[i] == '\n' && s[i + 1] == '\n')
}

/// A well-shaped block of lines: non-empty, it does not open with a line
/// break, it closes with one, and it holds no blank line.
pub open spec fn block_ok(s: Seq<char>) -> bool {
    s.len() >= 1 && s[0] != '\n' && s.last() == '\n' && has_no_blank_line(s)
}

/// One full line: a non-empty, break-free body closed by a line break.
pub open spec fn line_ok(l: Seq<char>) -> bool {
    l.len() >= 2 && l.last() == '\n' && forall|i: int| 0 <= i < l.len() - 1 ==> #[trigger] l[i] != '\n'
}

/// Appending a full line to a well-shaped block (or to nothing) yields a
/// well-shaped block.
proof fn lemma_block_append_line(s: Seq<char>, l: Seq<char>)
    requires
        s.len() == 0 || block_ok(s),
        line_ok(l),
    ensures
        block_ok(s + l),
{
    let t = s + l;
    assert forall|i: int| 0 <= i < t.len() - 1 implies !(#[trigger] t[i] == '\n' && t[i + 1] == '\n') by {
        if i + 1 < s.len() {
            assert(t[i] == s[i] && t[i + 1] == s[i + 1]);
        } else if i + 1 == s.len() {
            assert(t[i + 1] == l[0]);
        } else {
            assert(t[i] == l[i - s.len()] && t[i + 1] == l[i + 1 - s.len()]);
        }
    }
}

/// Every digit character is a decimal digit and no line break.
proof fn lemma_digit_char(d: int)
    ensures
        is_decimal_digit(spec_digit(d)),
        spec_digit(d) != '\n',
{
}

/// The header line is one full line of four decimal digits.
pub proof fn lemma_header_line_format(month: int, day: int)
    ensures
        spec_header_line(month, day).len() == 5,
        forall|i: int| 0 <= i < 4 ==> is_decimal_digit(#[trigger] spec_header_line(month, day)[i]),
        spec_header_line(month, day)[4] == '\n',
        line_ok(spec_header_line(month, day)),
{
    let h = spec_header_line(month, day);
    lemma_digit_char(month / 10);
    lemma_digit_char(month % 10);
    lemma_digit_char(day / 10);
    lemma_digit_char(day % 10);
    assert(h[0] == spec_digit(month / 10));
    assert(h[1] == spec_digit(month % 10));
    assert(h[2] == spec_digit(day / 10));
    assert(h[3] == spec_digit(day % 10));
}

/// Every activity line is one full line, provided its label holds no line
/// break.
proof fn lemma_item_line_ok(hour: int, minute: int, label: Seq<char>)
    requires
        forall|i: int| 0 <= i < label.len() ==> label[i] != '\n',
    ensures
        line_ok(spec_item_line(hour, minute, label)),
{
    let l = spec_item_line(hour, minute, label);
    lemma_digit_char(hour / 10);
    lemma_digit_char(hour % 10);
    lemma_digit_char(minute / 10);
    lemma_digit_char(minute % 10);
    assert forall|i: int| 0 <= i < l.len() - 1 implies l[i] != '\n' by {
        if i >= 4 {
            assert(l[i] == label[i - 4]);
        } else {
            assert(l[0] == spec_digit(hour / 10));
            assert(l[1] == spec_digit(hour % 10));
            assert(l[2] == spec_digit(minute / 10));
            assert(l[3] == spec_digit(minute % 10));
        }
    }
}

/// Break-free labels, in spec form for the lemmas below.
pub open spec fn newline_free(s: Seq<char>) -> bool {
    forall|i: int| 0 <= i < s.len() ==> #[trigger] s[i] != '\n'
}

/// Appending the first `k` activity lines to a well-shaped block keeps it
/// well-shaped, provided every label in reach holds no line break.
proof fn lemma_block_append_activity_lines(
    s: Seq<char>,
    k: int,
    n: int,
    pool: Seq<Seq<char>>,
    wake_minute: int,
    items: Seq<ItemDraw>,
)
    requires
        block_ok(s),
        k <= n,
        items.len() == n - 1,
        forall|t: int| 0 <= t < n - 1 ==> (#[trigger] items[t]).activity_index < pool.len(),
        forall|a: int| 0 <= a < pool.len() ==> newline_free(#[trigger] pool[a]),
    ensures
        block_ok(s + spec_activity_lines(k, n, pool, wake_minute, items)),
    decreases k,
{
    reveal_strlit("wake up");
    if k <= 0 {
        assert(s + spec_activity_lines(k, n, pool, wake_minute, items) =~= s);
    } else {
        lemma_block_append_activity_lines(s, k - 1, n, pool, wake_minute, items);
        let prev = s + spec_activity_lines(k - 1, n, pool, wake_minute, items);
        let line = spec_item_line_at(k - 1, n, pool, wake_minute, items);
        if k - 1 == 0 {
            assert(newline_free(wake_label()));
            lemma_item_line_ok(6, wake_minute, wake_label());
        } else {
            lemma_item_line_ok(
                spec_item_hour(k - 1, n),
                items[k - 2].minute as int,
                spec_item_label(k - 1, pool, items),
            );
        }
        lemma_block_append_line(prev, line);
        assert(prev + line =~= s + spec_activity_lines(k, n, pool, wake_minute, items));
    }
}

/// A day block is the header line, then (exactly where the plan drew a
/// remark) one remark line, then the activity lines.
pub proof fn lemma_day_block_structure(
    month: int,
    day: int,
    n: int,
    pool: Seq<Seq<char>>,
    prefix: Seq<char>,
    contents: Seq<Seq<char>>,
    plan: DayPlan,
)
    ensures
        plan.remark_index matches Some(j) ==> spec_day_block(
            month,
            day,
            n,
            pool,
            prefix,
            contents,
            plan,
        ) == spec_header_line(month, day) + spec_remark_line(prefix, contents[j as int])
            + spec_activity_lines(n, n, pool, plan.wake_minute as int, plan.items@),
        plan.remark_index is None ==> spec_day_block(month, day, n, pool, prefix, contents, plan)
            == spec_header_line(month, day) + spec_activity_lines(
            n,
            n,
            pool,
            plan.wake_minute as int,
            plan.items@,
        ),
{
    if plan.remark_index is None {
        assert(spec_day_block(month, day, n, pool, prefix, contents, plan) =~= spec_header_line(
            month,
            day,
        ) + spec_activity_lines(n, n, pool, plan.wake_minute as int, plan.items@));
    }
}

/// A day block never holds a blank line: it opens with a digit, closes
/// with a line break, and no blank line stands inside it.  The labels in
/// reach must hold no line break, and a drawn remark line must not be
/// empty.
pub proof fn lemma_day_block_no_blank_line(
    month: int,
    day: int,
    n: int,
    pool: Seq<Seq<char>>,
    prefix: Seq<char>,
    contents: Seq<Seq<char>>,
    plan: DayPlan,
)
    requires
        n >= 1,
        plan.items@.len() == n - 1,
        forall|t: int| 0 <= t < n - 1 ==> (#[trigger] plan.items@[t]).activity_index < pool.len(),
        forall|a: int| 0 <= a < pool.len() ==> newline_free(#[trigger] pool[a]),
        newline_free(prefix),
        forall|c: int| 0 <= c < contents.len() ==> newline_free(#[trigger] contents[c]),
        plan.remark_index matches Some(j) ==> j < contents.len() && prefix.len()
            + contents[j as int].len() > 0,
    ensures
        block_ok(spec_day_block(month, day, n, pool, prefix, contents, plan)),
{
    lemma_header_line_format(month, day);
    let header = spec_header_line(month, day);
    lemma_block_append_line(Seq::empty(), header);
    assert(Seq::empty() + header =~= header);
    let opening = header + spec_remark_part(prefix, contents, plan);
    match plan.remark_index {
        Some(j) => {
            let rl = spec_remark_line(prefix, contents[j as int]);
            assert forall|i: int| 0 <= i < rl.len() - 1 implies rl[i] != '\n' by {
                if i < prefix.len() {
                    assert(rl[i] == prefix[i]);
                } else {
                    assert(rl[i] == contents[j as int][i - prefix.len()]);
                }
            }
            lemma_block_append_line(header, rl);
        },
        None => {
            assert(opening =~= header);
        },
    }
    lemma_block_append_activity_lines(
        opening,
        n,
        n,
        pool,
        plan.wake_minute as int,
        plan.items@,
    );
    assert(opening + spec_activity_lines(n, n, pool, plan.wake_minute as int, plan.items@)
        =~= spec_day_block(month, day, n, pool, prefix, contents, plan));
}

/// The month text is the day blocks in day order, consecutive blocks
/// separated by one extra line break, with nothing before the first.
pub proof fn lemma_month_text_day_separation(
    month: int,
    days: int,
    n: int,
    pool: Seq<Seq<char>>,
    prefix: Seq<char>,
    contents: Seq<Seq<char>>,
    plans: Seq<DayPlan>,
)
    requires
        days >= 1,
    ensures
        spec_month_text(month, 1, n, pool, prefix, contents, plans) == spec_day_block(
            month,
            1,
            n,
            pool,
            prefix,
            contents,
            plans[0],
        ),
        days >= 2 ==> spec_month_text(month, days, n, pool, prefix, contents, plans)
            == spec_month_text(month, days - 1, n, pool, prefix, contents, plans) + newline()
            + spec_day_block(month, days, n, pool, prefix, contents, plans[days - 1]),
{
    assert(spec_month_text(month, 0, n, pool, prefix, contents, plans) == Seq::<char>::empty());
    assert(spec_month_text(month, 1, n, pool, prefix, contents, plans) =~= spec_day_block(
        month,
        1,
        n,
        pool,
        prefix,
        contents,
        plans[0],
    ));
    if days >= 2 {
        assert(spec_month_text(month, days, n, pool, prefix, contents, plans)
            =~= spec_month_text(month, days - 1, n, pool, prefix, contents, plans) + newline()
            + spec_day_block(month, days, n, pool, prefix, contents, plans[days - 1]));
    }
}

/// A day with a single item per day has exactly one activity line: the
/// wake-up line at hour 6.
pub proof fn lemma_single_item_day(
    pool: Seq<Seq<char>>,
    wake_minute: int,
    items: Seq<ItemDraw>,
)
    ensures
        spec_activity_lines(1, 1, pool, wake_minute, items) == spec_item_line(
            6,
            wake_minute,
            wake_label(),
        ),
{
    assert(spec_activity_lines(0, 1, pool, wake_minute, items) == Seq::<char>::empty());
    assert(spec_activity_lines(1, 1, pool, wake_minute, items) =~= spec_item_line(
        6,
        wake_minute,
        wake_label(),
    ));
}

/// The first activity line of every day is the wake-up line: hour 6, the
/// day's wake-up minute, and the fixed wake-up label.
pub proof fn lemma_wake_up_item(
    n: int,
    pool: Seq<Seq<char>>,
    wake_minute: int,
    items: Seq<ItemDraw>,
)
    ensures
        spec_item_line_at(0, n, pool, wake_minute, items) == spec_item_line(
            6,
            wake_minute,
            wake_label(),
        ),
        spec_item_hour(0, n) == 6,
{
}

/// With more than one item per day, the first item sits at hour 6 with
/// the wake-up label, and the last item reaches logical hour 25, shown as
/// hour 1.
pub proof fn lemma_first_and_last_item(n: int)
    requires
        n > 1,
    ensures
        spec_item_hour(0, n) == 6,
        spec_item_hour(n - 1, n) == 1,
{
    let d = 2 * (n - 1);
    assert(38 * (n - 1) + (n - 1) == 19 * (2 * (n - 1)) + (n - 1)) by (nonlinear_arith);
    assert(0 <= n - 1 < d);
    lemma_fundamental_div_mod_converse_div(38 * (n - 1) + (n - 1), d, 19, n - 1);
}

fn digit_str(d: u32) -> (r: &'static str)
    requires
        d < 10,
    ensures
        r@ == seq![spec_digit(d as int)],
{
    proof {
        reveal_strlit("0");
        reveal_strlit("1");
        reveal_strlit("2");
        reveal_strlit("3");
        reveal_strlit("4");
        reveal_strlit("5");
        reveal_strlit("6");
        reveal_strlit("7");
        reveal_strlit("8");
        reveal_strlit("9");
    }
    let r = match d {
        0 => "0",
        1 => "1",
        2 => "2",
        3 => "3",
        4 => "4",
        5 => "5",
        6 => "6",
        7 => "7",
        8 => "8",
        _ => "9",
    };
    proof {
        assert(r@ =~= seq![spec_digit(d as int)]);
    }
    r
}

/// Appends the two-digit zero-padded rendering of `n`.
fn push_two_digit(out: &mut String, n: u32)
    requires
        n < 100,
    ensures
        final(out)@ == old(out)@ + spec_two_digit(n as int),
{
    let tens: u32 = n / 10;
    let ones: u32 = n % 10;
    out.append(digit_str(tens));
    out.append(digit_str(ones));
    proof {
        assert(out@ =~= old(out)@ + spec_two_digit(n as int));
    }
}

/// Appends a line break.
fn push_newline(out: &mut String)
    ensures
        final(out)@ == old(out)@ + newline(),
{
    out.append("\n");
    proof {
        reveal_strlit("\n");
        assert(out@ =~= old(out)@ + newline());
    }
}

fn wake_label_str() -> (r: &'static str)
    ensures
        r@ == wake_label(),
{
    "wake up"
}

/// The hour of activity item `i` out of `n` per day.
fn item_hour(i: u32, n: u32) -> (h: u32)
    requires
        1 <= n,
        i < n,
    ensures
        h as int == spec_item_hour(i as int, n as int),
        h <= 23,
{
    if i == 0 {
        6
    } else {
        let num: u64 = 38u64 * (i as u64) + ((n - 1) as u64);
        let den: u64 = 2u64 * ((n - 1) as u64);
        let q: u64 = num / den;
        proof {
            lemma_multiply_divide_lt(num as int, den as int, 20);
        }
        let logical: u64 = 6 + q;
        let h64: u64 = if logical >= 24 {
            logical - 24
        } else {
            logical
        };
        h64 as u32
    }
}

/// Appends one day block: the header, the remark line where the plan drew
/// one, and the activity lines.
#[verifier::loop_isolation(false)]
fn render_day(
    out: &mut String,
    month: u32,
    day: u32,
    items_per_day: u32,
    activities: &Vec<String>,
    remarks: &Option<DailyRemarkConfig>,
    plan: &DayPlan,
)
    requires
        month < 100,
        day < 100,
        1 <= items_per_day,
        activities@.len() > 0,
        day_plan_wf(*plan, items_per_day as int, activities@.len() as int, *remarks),
    ensures
        final (out)@ == old(out)@ + spec_day_block(
            month as int,
            day as int,
            items_per_day as int,
            pool_view(activities@),
            remark_prefix_view(*remarks),
            remark_contents_view(*remarks),
            *plan,
        ),
{
    push_two_digit(out, month);
    push_two_digit(out, day);
    push_newline(out);
    match remarks {
        Some(rc) => {
            match plan.remark_index {
                Some(j) => {
                    out.append(rc.prefix.as_str());
                    out.append(rc.contents[j].as_str());
                    push_newline(out);
                    proof {
                        assert(remark_contents_view(*remarks)[j as int] == rc.contents@[j as int]@);
                    }
                },
                None => {},
            }
        },
        None => {},
    }
    let ghost opening = out@;
    proof {
        assert(opening =~= old(out)@ + spec_header_line(month as int, day as int)
            + spec_remark_part(remark_prefix_view(*remarks), remark_contents_view(*remarks), *plan));
    }
    let ghost pool = pool_view(activities@);
    let mut i: u32 = 0;
    while i < items_per_day
        invariant
            i <= items_per_day,
            out@ == opening + spec_activity_lines(
                i as int,
                items_per_day as int,
                pool,
                plan.wake_minute as int,
                plan.items@,
            ),
        decreases items_per_day - i,
    {
        let hour = item_hour(i, items_per_day);
        let minute = if i == 0 {
            plan.wake_minute
        } else {
            plan.items[(i - 1) as usize].minute
        };
        push_two_digit(out, hour);
        push_two_digit(out, minute);
        if i == 0 {
            out.append(wake_label_str());
        } else {
            out.append(activities[plan.items[(i - 1) as usize].activity_index].as_str());
        }
        push_newline(out);
        proof {
            assert(out@ =~= opening + spec_activity_lines(
                i + 1,
                items_per_day as int,
                pool,
                plan.wake_minute as int,
                plan.items@,
            ));
        }
        i = i + 1;
    }
    proof {
        assert(out@ =~= old(out)@ + spec_day_block(
            month as int,
            day as int,
            items_per_day as int,
            pool,
            remark_prefix_view(*remarks),
            remark_contents_view(*remarks),
            *plan,
        ));
    }
}

/// Unchanged leading plans leave the rendered month text unchanged: the
/// text of the first `days` blocks reads only the first `days` plans.
proof fn lemma_month_text_depends_on_prefix(
    month: int,
    days: int,
    n: int,
    pool: Seq<Seq<char>>,
    prefix: Seq<char>,
    contents: Seq<Seq<char>>,
    plans1: Seq<DayPlan>,
    plans2: Seq<DayPlan>,
)
    requires
        forall|d: int| 0 <= d < days ==> plans1[d] == plans2[d],
    ensures
        spec_month_text(month, days, n, pool, prefix, contents, plans1) == spec_month_text(
            month,
            days,
            n,
            pool,
            prefix,
            contents,
            plans2,
        ),
    decreases days,
{
    if days > 0 {
        lemma_month_text_depends_on_prefix(month, days - 1, n, pool, prefix, contents, plans1, plans2);
    }
}

/// Draws the random choices of one day: the remark decision and choice,
/// the wake-up minute, and minute and activity of every further item.
#[verifier::loop_isolation(false)]
fn sample_day_plan(
    rng: &mut rand::rngs::ThreadRng,
    items_per_day: u32,
    pool_len: usize,
    remarks: &Option<DailyRemarkConfig>,
) -> (plan: DayPlan)
    requires
        1 <= items_per_day,
        0 < pool_len,
        remarks matches Some(rc) ==> rc.wf(),
    ensures
        day_plan_wf(plan, items_per_day as int, pool_len as int, *remarks),
        (remarks matches Some(rc) && rc.chance_num == CHANCE_DENOM) ==> plan.remark_index
            is Some,
        (remarks matches Some(rc) && rc.chance_num == 0) ==> plan.remark_index is None,
{
    let remark_index: Option<usize> = match remarks {
        Some(rc) => {
            if rng::sample_chance(rng, rc.chance_num, CHANCE_DENOM) {
                Some(rng::sample_index(rng, rc.contents.len()))
            } else {
                None
            }
        },
        None => None,
    };
    let wake_minute = rng::sample_minute(rng);
    let mut items: Vec<ItemDraw> = Vec::new();
    let mut k: u32 = 1;
    while k < items_per_day
        invariant
            1 <= k <= items_per_day,
            items@.len() == k - 1,
            forall|t: int|
                0 <= t < k - 1 ==> (#[trigger] items@[t]).minute <= 59
                    && items@[t].activity_index < pool_len,
        decreases items_per_day - k,
    {
        let minute = rng::sample_minute(rng);
        let activity_index = rng::sample_index(rng, pool_len);
        items.push(ItemDraw { minute, activity_index });
        k = k + 1;
    }
    DayPlan { remark_index, wake_minute, items }
}

/// The month-text generator: the items-per-day count, the activity pool,
/// the optional remark settings, and the pseudo-random source reused over
/// the whole run.
pub struct LogGenerator {
    pub items_per_day: u32,
    pub common_activities: Vec<String>,
    pub remark_config: Option<DailyRemarkConfig>,
    pub rng: rand::rngs::ThreadRng,
}

/// Validity of a sequence of day plans against the generator's settings,
/// together with what the two degenerate remark chances force: a chance
/// of one draws a remark every day, a chance of zero never does.
pub open spec fn month_plans_wf(plans: Seq<DayPlan>, g: LogGenerator, days: int) -> bool {
    &&& plans.len() == days
    &&& forall|d: int|
        0 <= d < days ==> day_plan_wf(
            #[trigger] plans[d],
            g.items_per_day as int,
            g.common_activities@.len() as int,
            g.remark_config,
        )
    &&& (g.remark_config matches Some(rc) && rc.chance_num == CHANCE_DENOM) ==> forall|d: int|
        0 <= d < days ==> (#[trigger] plans[d]).remark_index is Some
    &&& (g.remark_config matches Some(rc) && rc.chance_num == 0) ==> forall|d: int|
        0 <= d < days ==> (#[trigger] plans[d]).remark_index is None
}

impl LogGenerator {
    /// The generator's settings are usable: at least one item per day, a
    /// non-empty activity pool, and valid remark settings where present.
    pub open spec fn wf(&self) -> bool {
        &&& self.items_per_day >= 1
        &&& self.common_activities@.len() >= 1
        &&& match self.remark_config {
            Some(rc) => rc.wf(),
            None => true,
        }
    }

    pub fn new(
        items_per_day: u32,
        activities: Vec<String>,
        remark_config: Option<DailyRemarkConfig>,
    ) -> (g: LogGenerator)
        requires
            items_per_day >= 1,
            activities@.len() >= 1,
            remark_config matches Some(rc) ==> rc.wf(),
        ensures
            g.wf(),
            g.items_per_day == items_per_day,
            g.common_activities == activities,
            g.remark_config == remark_config,
    {
        LogGenerator {
            items_per_day,
            common_activities: activities,
            remark_config,
            rng: rng::new_thread_rng(),
        }
    }

    /// Produces the text block of one month: one day block per day,
    /// consecutive blocks separated by a blank line; a day count of zero
    /// gives the empty text.  The text equals the
    /// model text under some valid sequence of day plans, one per day; a
    /// remark chance of `CHANCE_DENOM` puts a remark in every day, a
    /// chance of zero in none.
    #[verifier::loop_isolation(false)]
    pub fn generate_for_month(&mut self, month: u32, days_in_month: u32) -> (log: String)
        requires
            old(self).wf(),
            1 <= month <= 12,
            days_in_month <= 31,
        ensures
            final (self).items_per_day == old(self).items_per_day,
            final (self).common_activities == old(self).common_activities,
            final (self).remark_config == old(self).remark_config,
            final (self).wf(),
            exists|plans: Seq<DayPlan>|
                #[trigger] month_plans_wf(plans, *old(self), days_in_month as int) && log@
                    == spec_month_text(
                    month as int,
                    days_in_month as int,
                    old(self).items_per_day as int,
                    pool_view(old(self).common_activities@),
                    remark_prefix_view(old(self).remark_config),
                    remark_contents_view(old(self).remark_config),
                    plans,
                ),
    {
        let mut log = String::new();
        let ghost mut plans: Seq<DayPlan> = Seq::empty();
        let mut day: u32 = 1;
        while day <= days_in_month
            invariant
                1 <= day <= days_in_month + 1,
                plans.len() == day - 1,
                month_plans_wf(plans, *old(self), (day - 1) as int),
                log@ == spec_month_text(
                    month as int,
                    (day - 1) as int,
                    old(self).items_per_day as int,
                    pool_view(old(self).common_activities@),
                    remark_prefix_view(old(self).remark_config),
                    remark_contents_view(old(self).remark_config),
                    plans,
                ),
                self.items_per_day == old(self).items_per_day,
                self.common_activities == old(self).common_activities,
                self.remark_config == old(self).remark_config,
            decreases days_in_month + 1 - day,
        {
            if day > 1 {
                push_newline(&mut log);
            }
            let plan = sample_day_plan(
                &mut self.rng,
                self.items_per_day,
                self.common_activities.len(),
                &self.remark_config,
            );
            render_day(
                &mut log,
                month,
                day,
                self.items_per_day,
                &self.common_activities,
                &self.remark_config,
                &plan,
            );
            proof {
                let prev = plans;
                plans = plans.push(plan);
                lemma_month_text_depends_on_prefix(
                    month as int,
                    (day - 1) as int,
                    old(self).items_per_day as int,
                    pool_view(old(self).common_activities@),
                    remark_prefix_view(old(self).remark_config),
                    remark_contents_view(old(self).remark_config),
                    prev,
                    plans,
                );
                assert(log@ =~= spec_month_text(
                    month as int,
                    day as int,
                    old(self).items_per_day as int,
                    pool_view(old(self).common_activities@),
                    remark_prefix_view(old(self).remark_config),
                    remark_contents_view(old(self).remark_config),
                    plans,
                ));
            }
            day = day + 1;
        }
        log
    }
}

} // verus!
