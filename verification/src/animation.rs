//! The terminal effects: animation pacing, byte sizes for humans, and the
//! frames of the rage meter, the progress bars, the fire and the fake errors.
use vstd::prelude::*;
use vstd::string::StringExecFns;
use crate::text::{chars_of, decimal, digit_char, push_decimal, push_repeat, push_str, repeat_char};
use crate::entropy::random_below;
use crate::sound::SoundEffect;

verus! {

/// How fast the animations run.
#[derive(Clone, Copy, Debug, PartialEq, Eq, Structural)]
pub enum AnimationSpeed {
    Slow,
    Normal,
    Fast,
}

/// The animation speed in effect; it starts at `Normal`.
#[derive(Clone, Copy, Debug)]
pub struct SpeedSetting {
    pub speed: AnimationSpeed,
}

impl SpeedSetting {
    /// The initial setting: normal speed.
    pub fn new() -> (s: SpeedSetting)
        ensures
            s.speed == AnimationSpeed::Normal,
    {
        SpeedSetting { speed: AnimationSpeed::Normal }
    }
}

/// A delay of `ms` milliseconds at the given speed: doubled (saturating) when
/// slow, halved but at least one millisecond when fast.
pub open spec fn scaled_for(speed: AnimationSpeed, ms: nat) -> nat {
    match speed {
        AnimationSpeed::Slow => if 2 * ms > u64::MAX {
            u64::MAX as nat
        } else {
            2 * ms
        },
        AnimationSpeed::Fast => if ms / 2 >= 1 {
            ms / 2
        } else {
            1
        },
        AnimationSpeed::Normal => ms,
    }
}

/// Choose the speed at which later delays are scaled.
pub fn set_speed(setting: &mut SpeedSetting, speed: AnimationSpeed)
    ensures
        final(setting).speed == speed,
{
    setting.speed = speed;
}

/// A delay of `ms` milliseconds scaled to the speed in effect.
pub fn scaled_duration_ms(setting: &SpeedSetting, ms: u64) -> (r: u64)
    ensures
        r == scaled_for(setting.speed, ms as nat),
{
    match setting.speed {
        AnimationSpeed::Slow => if ms > u64::MAX / 2 {
            u64::MAX
        } else {
            ms * 2
        },
        AnimationSpeed::Fast => {
            let h: u64 = ms / 2;
            if h >= 1 {
                h
            } else {
                1
            }
        },
        AnimationSpeed::Normal => ms,
    }
}

/// Slow never shortens a delay and fast never lengthens one of at least a
/// millisecond; normal keeps it; fast never yields a zero delay.
pub proof fn law_speeds_order_delays(ms: nat)
    requires
        ms <= u64::MAX,
    ensures
        scaled_for(AnimationSpeed::Normal, ms) == ms,
        scaled_for(AnimationSpeed::Slow, ms) >= ms,
        ms >= 1 ==> scaled_for(AnimationSpeed::Fast, ms) <= ms,
        scaled_for(AnimationSpeed::Fast, ms) >= 1,
{
}

/// The spacing of the `f64` values near `b` (for `b < 2^64`).
pub open spec fn f64_spacing(b: nat) -> nat {
    if b < 0x20_0000_0000_0000 {
        1
    } else if b < 0x40_0000_0000_0000 {
        2
    } else if b < 0x80_0000_0000_0000 {
        4
    } else if b < 0x100_0000_0000_0000 {
        8
    } else if b < 0x200_0000_0000_0000 {
        16
    } else if b < 0x400_0000_0000_0000 {
        32
    } else if b < 0x800_0000_0000_0000 {
        64
    } else if b < 0x1000_0000_0000_0000 {
        128
    } else if b < 0x2000_0000_0000_0000 {
        256
    } else if b < 0x4000_0000_0000_0000 {
        512
    } else if b < 0x8000_0000_0000_0000 {
        1024
    } else {
        2048
    }
}

/// `n / d` rounded to the nearest integer, ties to even.
pub open spec fn round_half_even(n: nat, d: nat) -> nat {
    let q = n / d;
    let r = n % d;
    if 2 * r > d || (2 * r == d && q % 2 == 1) {
        q + 1
    } else {
        q
    }
}

/// The value of `b as f64`: `b` rounded to the nearest `f64`, ties to even.
pub open spec fn as_f64(b: nat) -> nat {
    round_half_even(b, f64_spacing(b)) * f64_spacing(b)
}

/// `n / d` with one decimal, as `format!("{:.1}", ..)` prints it, in tenths.
pub open spec fn tenths(n: nat, d: nat) -> nat {
    round_half_even(10 * n, d)
}

/// A number of tenths written with one decimal.
pub open spec fn one_decimal(t: nat) -> Seq<char> {
    decimal(t / 10) + "."@ + seq![digit_char(t % 10)]
}

/// The human-readable size of `bytes`.
pub open spec fn spec_format_bytes(bytes: nat) -> Seq<char> {
    if bytes >= 1_073_741_824 {
        one_decimal(tenths(as_f64(bytes), 1_073_741_824)) + " GB"@
    } else if bytes >= 1_048_576 {
        one_decimal(tenths(bytes, 1_048_576)) + " MB"@
    } else if bytes >= 1024 {
        decimal(round_half_even(bytes, 1024)) + " KB"@
    } else {
        decimal(bytes) + " B"@
    }
}

/// `n / d` rounded half to even.
fn div_round_half_even(n: u128, d: u128) -> (r: u128)
    requires
        0 < d <= 0x1_0000_0000_0000_0000,
        n < 0x1_0000_0000_0000_0000_0000,
    ensures
        r == round_half_even(n as nat, d as nat),
{
    let q: u128 = n / d;
    let r: u128 = n % d;
    if 2 * r > d || (2 * r == d && q % 2 == 1) {
        assert(q <= n) by (nonlinear_arith)
            requires
                q == n / d,
                d > 0,
        ;
        q + 1
    } else {
        q
    }
}

/// Rounding `b / s` to the nearest integer keeps it within `k` when `b` is
/// below `k * s`.
proof fn lemma_rounded_within(b: nat, s: nat, k: nat)
    requires
        s > 0,
        b < k * s,
    ensures
        round_half_even(b, s) <= k,
{
    assert(b / s < k) by (nonlinear_arith)
        requires
            s > 0,
            b < k * s,
    ;
}

/// The value of `b as f64`, computed exactly.
fn u64_as_f64(b: u64) -> (v: u128)
    ensures
        v == as_f64(b as nat),
        v <= 0x1_0000_0000_0000_0000,
{
    let (s, k): (u128, u128) = if b < 0x20_0000_0000_0000 {
        (1, 0x1_0000_0000_0000_0000)
    } else if b < 0x40_0000_0000_0000 {
        (2, 0x8000_0000_0000_0000)
    } else if b < 0x80_0000_0000_0000 {
        (4, 0x4000_0000_0000_0000)
    } else if b < 0x100_0000_0000_0000 {
        (8, 0x2000_0000_0000_0000)
    } else if b < 0x200_0000_0000_0000 {
        (16, 0x1000_0000_0000_0000)
    } else if b < 0x400_0000_0000_0000 {
        (32, 0x800_0000_0000_0000)
    } else if b < 0x800_0000_0000_0000 {
        (64, 0x400_0000_0000_0000)
    } else if b < 0x1000_0000_0000_0000 {
        (128, 0x200_0000_0000_0000)
    } else if b < 0x2000_0000_0000_0000 {
        (256, 0x100_0000_0000_0000)
    } else if b < 0x4000_0000_0000_0000 {
        (512, 0x80_0000_0000_0000)
    } else if b < 0x8000_0000_0000_0000 {
        (1024, 0x40_0000_0000_0000)
    } else {
        (2048, 0x20_0000_0000_0000)
    };
    assert(s == f64_spacing(b as nat));
    assert(k * s == 0x1_0000_0000_0000_0000);
    let q: u128 = div_round_half_even(b as u128, s);
    proof {
        lemma_rounded_within(b as nat, s as nat, k as nat);
    }
    assert(q * s <= k * s) by (nonlinear_arith)
        requires
            q <= k,
            s > 0,
    ;
    q * s
}

/// Append `t` tenths written with one decimal.
fn push_one_decimal(s: &mut String, t: u128)
    requires
        t <= u64::MAX,
    ensures
        final(s)@ == old(s)@ + one_decimal(t as nat),
{
    push_decimal(s, (t / 10) as u64);
    push_str(s, ".");
    let d: u8 = (t % 10) as u8;
    let c: char = (48u8 + d) as char;
    crate::text::push_char(s, c);
    assert(s@ =~= old(s)@ + one_decimal(t as nat));
}

/// Format a number of bytes for humans: `512 B`, `2 KB`, `1.5 MB`, `3.2 GB`.
pub fn format_bytes(bytes: u64) -> (s: String)
    ensures
        s@ == spec_format_bytes(bytes as nat),
{
    let mut s = String::new();
    if bytes >= 1_073_741_824 {
        let v: u128 = u64_as_f64(bytes);
        let t: u128 = div_round_half_even(10 * v, 1_073_741_824);
        assert(t <= u64::MAX) by (nonlinear_arith)
            requires
                t == round_half_even((10 * v) as nat, 1_073_741_824),
                v <= 0x1_0000_0000_0000_0000,
        ;
        push_one_decimal(&mut s, t);
        push_str(&mut s, " GB");
    } else if bytes >= 1_048_576 {
        let t: u128 = div_round_half_even(10 * (bytes as u128), 1_048_576);
        assert(t <= 11000) by (nonlinear_arith)
            requires
                t == round_half_even((10 * bytes) as nat, 1_048_576),
                bytes < 1_073_741_824,
        ;
        push_one_decimal(&mut s, t);
        push_str(&mut s, " MB");
    } else if bytes >= 1024 {
        let k: u128 = div_round_half_even(bytes as u128, 1024);
        assert(k <= 1025) by (nonlinear_arith)
            requires
                k == round_half_even(bytes as nat, 1024),
                bytes < 1_048_576,
        ;
        push_decimal(&mut s, k as u64);
        push_str(&mut s, " KB");
    } else {
        push_decimal(&mut s, bytes);
        push_str(&mut s, " B");
    }
    assert(s@ =~= spec_format_bytes(bytes as nat));
    s
}


/// The first `width - 4` characters of a message (none when `width < 4`).
pub open spec fn spec_fit_error(message: Seq<char>, width: nat) -> Seq<char> {
    let n = if width >= 4 {
        width - 4
    } else {
        0
    };
    if n < message.len() {
        message.take(n)
    } else {
        message
    }
}

/// A fitted fake error is a prefix of the message that leaves four columns
/// free (and is empty on terminals narrower than that).
pub proof fn law_fake_errors_fit(message: Seq<char>, width: nat)
    ensures
        spec_fit_error(message, width).len() + 4 <= if width >= 4 {
            width
        } else {
            4
        },
        message.take(spec_fit_error(message, width).len() as int) == spec_fit_error(message, width),
{
    assert(message.take(message.len() as int) =~= message);
}

/// Cut a fake error message to fit a terminal of `width` columns, keeping
/// whole characters.
pub fn fit_error_to_width(message: &str, width: u16) -> (s: String)
    ensures
        s@ == spec_fit_error(message@, width as nat),
{
    let n: usize = if width >= 4 {
        (width - 4) as usize
    } else {
        0
    };
    let chars: Vec<char> = chars_of(message);
    let mut s = String::new();
    let mut i: usize = 0;
    while i < n && i < chars.len()
        invariant
            i <= chars.len(),
            i <= n,
            s@ == chars@.take(i as int),
        decreases chars.len() - i,
    {
        crate::text::push_char(&mut s, chars[i]);
        assert(s@ =~= chars@.take(i + 1));
        i = i + 1;
    }
    assert(s@ =~= spec_fit_error(message@, width as nat));
    s
}

/// The left padding that centers a text of `len` bytes in `width` columns.
pub open spec fn center_padding(len: nat, width: nat) -> nat {
    if len < width {
        ((width - len) / 2) as nat
    } else {
        0
    }
}

/// The text that the centered typewriter effect types: `text` preceded by
/// the padding that centers its bytes in `width` columns.
pub fn typewriter_centered(text: &str, width: u16) -> (s: String)
    ensures
        s@ == repeat_char(' ', center_padding(text.len() as nat, width as nat)) + text@,
{
    let len: usize = text.len();
    let padding: usize = if len < width as usize {
        (width as usize - len) / 2
    } else {
        0
    };
    let mut s = String::new();
    push_repeat(&mut s, ' ', padding);
    push_str(&mut s, text);
    s
}

// ---------------------------------------------------------------------------
// Rage meter
// ---------------------------------------------------------------------------

/// The number of steps in which the rage meter fills.
pub const RAGE_METER_STEPS: usize = 50;

/// The width of the rage meter's bar on a terminal of `width` columns.
pub fn rage_bar_width(width: u16) -> (w: usize)
    ensures
        w == if width < 60 {
            width as nat
        } else {
            60
        },
{
    if width < 60 {
        width as usize
    } else {
        60
    }
}

/// The filled part of a bar of `bar_width` cells after `step` of `steps`.
pub fn meter_fill(step: usize, steps: usize, bar_width: usize) -> (f: usize)
    requires
        0 < steps,
        step <= steps,
        step * bar_width <= usize::MAX,
    ensures
        f == (step * bar_width) as nat / steps as nat,
        f <= bar_width,
{
    assert(step * bar_width <= steps * bar_width) by (nonlinear_arith)
        requires
            step <= steps,
    ;
    assert((step * bar_width) as nat / steps as nat <= bar_width) by (nonlinear_arith)
        requires
            step * bar_width <= steps * bar_width,
            steps > 0,
    ;
    (step * bar_width) / steps
}

/// A bar of `filled` full cells and `bar_width - filled` empty ones.
pub open spec fn bar_cells(filled: nat, bar_width: nat) -> Seq<char> {
    repeat_char('█', filled) + repeat_char('░', (bar_width - filled) as nat)
}

/// One frame of the rage meter.
pub fn rage_meter_line(filled: usize, bar_width: usize, pct: u8) -> (s: String)
    requires
        filled <= bar_width,
    ensures
        s@ == "\r  RAGE LEVEL ["@ + bar_cells(filled as nat, bar_width as nat) + "] "@ + decimal(
            pct as nat,
        ) + "%"@,
{
    let mut s = String::new();
    push_str(&mut s, "\r  RAGE LEVEL [");
    push_repeat(&mut s, '█', filled);
    push_repeat(&mut s, '░', bar_width - filled);
    push_str(&mut s, "] ");
    push_decimal(&mut s, pct as u64);
    push_str(&mut s, "%");
    s
}

/// The rage meter at its peak.
pub fn rage_meter_full_line(bar_width: usize) -> (s: String)
    ensures
        s@ == "\r  RAGE LEVEL ["@ + repeat_char('█', bar_width as nat) + "] 100%"@,
{
    let mut s = String::new();
    push_str(&mut s, "\r  RAGE LEVEL [");
    push_repeat(&mut s, '█', bar_width);
    push_str(&mut s, "] 100%");
    s
}

/// The colors of the rage meter.
#[derive(Clone, Copy, Debug, PartialEq, Eq, Structural)]
pub enum MeterColor {
    Green,
    Yellow,
    Orange,
    Red,
    /// The dark flash at the peak.
    DarkRed,
    /// The bright flash at the peak.
    Glow,
}

/// The rage meter's color at `pct` percent.
pub open spec fn spec_rage_color(pct: nat) -> MeterColor {
    if pct <= 30 {
        MeterColor::Green
    } else if pct <= 60 {
        MeterColor::Yellow
    } else if pct <= 85 {
        MeterColor::Orange
    } else {
        MeterColor::Red
    }
}

/// The rage meter's color at `pct` percent.
pub fn rage_color(pct: u8) -> (c: MeterColor)
    ensures
        c == spec_rage_color(pct as nat),
{
    if pct <= 30 {
        MeterColor::Green
    } else if pct <= 60 {
        MeterColor::Yellow
    } else if pct <= 85 {
        MeterColor::Orange
    } else {
        MeterColor::Red
    }
}

// ---------------------------------------------------------------------------
// Progress bars
// ---------------------------------------------------------------------------

/// The number of cells of a progress bar.
pub const PROGRESS_BAR_WIDTH: usize = 30;

/// The number of steps in which a progress bar fills.
pub const PROGRESS_STEPS: usize = 50;

/// One frame of a progress bar.
pub open spec fn spec_progress_status(
    verb: Seq<char>,
    filled: nat,
    bar_width: nat,
    pct: nat,
    label: Seq<char>,
) -> Seq<char> {
    "\r  "@ + (if pct < 100 {
        "🔥"@
    } else {
        "💀"@
    }) + " "@ + verb + " ["@ + bar_cells(filled, bar_width) + "] "@ + decimal(pct) + "% ("@ + (
    if pct < 100 {
        label
    } else {
        "OBLITERATED"@
    }) + ")"@
}

/// One frame of a progress bar for destroying `label`.
pub fn progress_status(verb: &str, filled: usize, bar_width: usize, pct: u8, label: &str) -> (s:
    String)
    requires
        filled <= bar_width,
    ensures
        s@ == spec_progress_status(verb@, filled as nat, bar_width as nat, pct as nat, label@),
{
    let mut s = String::new();
    push_str(&mut s, "\r  ");
    if pct < 100 {
        push_str(&mut s, "🔥");
    } else {
        push_str(&mut s, "💀");
    }
    push_str(&mut s, " ");
    push_str(&mut s, verb);
    push_str(&mut s, " [");
    push_repeat(&mut s, '█', filled);
    push_repeat(&mut s, '░', bar_width - filled);
    push_str(&mut s, "] ");
    push_decimal(&mut s, pct as u64);
    push_str(&mut s, "% (");
    if pct < 100 {
        push_str(&mut s, label);
    } else {
        push_str(&mut s, "OBLITERATED");
    }
    push_str(&mut s, ")");
    assert(s@ =~= spec_progress_status(verb@, filled as nat, bar_width as nat, pct as nat, label@));
    s
}

/// What is printed after a finished progress bar.
pub fn progress_freed_suffix(size_str: &str) -> (s: String)
    ensures
        s@ == " — "@ + size_str@ + " freed"@,
{
    let mut s = String::new();
    push_str(&mut s, " — ");
    push_str(&mut s, size_str);
    push_str(&mut s, " freed");
    s
}

/// The pause between two frames of a progress bar that lasts `duration_ms`.
pub fn progress_step_delay(duration_ms: u64) -> (d: u64)
    ensures
        d == duration_ms / 50,
{
    duration_ms / 50
}

/// The colors of a progress bar.
#[derive(Clone, Copy, Debug, PartialEq, Eq, Structural)]
pub enum ProgressColor {
    Orange,
    Red,
    DarkRed,
}

/// A progress bar's color at `pct` percent.
pub fn progress_color(pct: u8) -> (c: ProgressColor)
    ensures
        c == if pct < 50 {
            ProgressColor::Orange
        } else if pct < 90 {
            ProgressColor::Red
        } else {
            ProgressColor::DarkRed
        },
{
    if pct < 50 {
        ProgressColor::Orange
    } else if pct < 90 {
        ProgressColor::Red
    } else {
        ProgressColor::DarkRed
    }
}

// ---------------------------------------------------------------------------
// Fire
// ---------------------------------------------------------------------------

/// The colors of the flames, from the coolest to the hottest.
#[derive(Clone, Copy, Debug, PartialEq, Eq, Structural)]
pub enum FireColor {
    DarkRed,
    Red,
    OrangeRed,
    Orange,
    Yellow,
    BrightYellow,
}

/// The position of a flame color in the palette.
pub open spec fn fire_color_index(c: FireColor) -> int {
    match c {
        FireColor::DarkRed => 0,
        FireColor::Red => 1,
        FireColor::OrangeRed => 2,
        FireColor::Orange => 3,
        FireColor::Yellow => 4,
        FireColor::BrightYellow => 5,
    }
}

/// The glyphs of the flames.
pub open spec fn fire_glyph(i: int) -> char {
    if i == 0 {
        '░'
    } else if i == 1 {
        '▒'
    } else if i == 2 {
        '▓'
    } else if i == 3 {
        '█'
    } else if i == 4 {
        '▓'
    } else {
        '▒'
    }
}

/// A flame glyph.
pub open spec fn is_fire_glyph(c: char) -> bool {
    c == '░' || c == '▒' || c == '▓' || c == '█'
}

/// The palette indices (from, to exclusive) that a flame cell in row `y` of
/// `rows` may take. The intensity `y / rows` is compared exactly with 0.7 and
/// 0.3, as the `f64` comparison does for the heights used here.
pub open spec fn fire_color_range(y: nat, rows: nat) -> (int, int) {
    if 10 * y > 7 * rows {
        (3, 6)
    } else if 10 * y > 3 * rows {
        (1, 4)
    } else {
        (0, 2)
    }
}

/// One cell of the fire.
#[derive(Clone, Copy, Debug)]
pub struct FireCell {
    pub glyph: char,
    pub color: FireColor,
}

fn fire_glyph_at(i: u64) -> (c: char)
    requires
        i < 6,
    ensures
        c == fire_glyph(i as int),
{
    if i == 0 {
        '░'
    } else if i == 1 {
        '▒'
    } else if i == 2 {
        '▓'
    } else if i == 3 {
        '█'
    } else if i == 4 {
        '▓'
    } else {
        '▒'
    }
}

fn fire_color_at(i: u64) -> (c: FireColor)
    requires
        i < 6,
    ensures
        fire_color_index(c) == i,
{
    if i == 0 {
        FireColor::DarkRed
    } else if i == 1 {
        FireColor::Red
    } else if i == 2 {
        FireColor::OrangeRed
    } else if i == 3 {
        FireColor::Orange
    } else if i == 4 {
        FireColor::Yellow
    } else {
        FireColor::BrightYellow
    }
}

/// The palette indices that a flame cell in row `y` of `rows` may take.
pub fn flame_color_range(y: u64, rows: u64) -> (r: (u64, u64))
    requires
        y < rows <= 0xFFFF,
    ensures
        r.0 == fire_color_range(y as nat, rows as nat).0,
        r.1 == fire_color_range(y as nat, rows as nat).1,
{
    if 10 * y > 7 * rows {
        (3, 6)
    } else if 10 * y > 3 * rows {
        (1, 4)
    } else {
        (0, 2)
    }
}

/// A row of `width` randomly drawn flame cells for row `y` of `rows` (the top
/// row is the coolest): each glyph is one of the six flame glyphs and each
/// color lies in the range that the row's intensity allows.
pub fn fire_row(y: u64, rows: u64, width: usize) -> (cells: Vec<FireCell>)
    requires
        y < rows <= 0xFFFF,
    ensures
        cells.len() == width,
        forall|i: int|
            0 <= i < width ==> is_fire_glyph(#[trigger] cells@[i].glyph),
        forall|i: int|
            0 <= i < width ==> fire_color_range(y as nat, rows as nat).0 <= fire_color_index(
                #[trigger] cells@[i].color,
            ) < fire_color_range(y as nat, rows as nat).1,
{
    let (lo, hi) = flame_color_range(y, rows);
    let mut cells: Vec<FireCell> = Vec::new();
    let mut i: usize = 0;
    while i < width
        invariant
            i <= width,
            cells.len() == i,
            lo == fire_color_range(y as nat, rows as nat).0,
            hi == fire_color_range(y as nat, rows as nat).1,
            forall|k: int|
                0 <= k < i ==> is_fire_glyph(#[trigger] cells@[k].glyph),
            forall|k: int|
                0 <= k < i ==> lo <= fire_color_index(#[trigger] cells@[k].color) < hi,
        decreases width - i,
    {
        let g: u64 = random_below(0, 6);
        let c: u64 = random_below(lo, hi);
        let cell = FireCell { glyph: fire_glyph_at(g), color: fire_color_at(c) };
        cells.push(cell);
        i = i + 1;
    }
    cells
}

// ---------------------------------------------------------------------------
// Fake errors
// ---------------------------------------------------------------------------

/// The number of fake error messages.
pub const FAKE_ERROR_COUNT: usize = 14;

/// The `i`-th fake error message.
pub open spec fn fake_error_message(i: int) -> Seq<char> {
    if i == 0 {
        "✗ Destroying node_modules singularity..."@
    } else if i == 1 {
        "✗ Purging cached dependencies..."@
    } else if i == 2 {
        "✗ Detonating build artifacts..."@
    } else if i == 3 {
        "✗ Incinerating .env.local.backup.old.final(2)..."@
    } else if i == 4 {
        "✗ Formatting senior dev's hard drive... just kidding"@
    } else if i == 5 {
        "✗ Unsubscribing from all JIRA notifications..."@
    } else if i == 6 {
        "✗ Mass-deleting Slack threads about \"quick syncs\"..."@
    } else if i == 7 {
        "✗ Revoking access to the monorepo..."@
    } else if i == 8 {
        "✗ Archiving 847 unread PR reviews..."@
    } else if i == 9 {
        "✗ Ejecting from create-react-app... spiritually..."@
    } else if i == 10 {
        "✗ Dropping all production tables... in my dreams..."@
    } else if i == 11 {
        "✗ Closing 94 Chrome tabs of Stack Overflow..."@
    } else if i == 12 {
        "✗ Deleting \"fix\" commits from existence..."@
    } else {
        "✗ Reverting the revert of the revert..."@
    }
}

/// The `i`-th fake error message.
pub fn fake_error_message_at(i: usize) -> (m: &'static str)
    requires
        i < FAKE_ERROR_COUNT,
    ensures
        m@ == fake_error_message(i as int),
{
    if i == 0 {
        "✗ Destroying node_modules singularity..."
    } else if i == 1 {
        "✗ Purging cached dependencies..."
    } else if i == 2 {
        "✗ Detonating build artifacts..."
    } else if i == 3 {
        "✗ Incinerating .env.local.backup.old.final(2)..."
    } else if i == 4 {
        "✗ Formatting senior dev's hard drive... just kidding"
    } else if i == 5 {
        "✗ Unsubscribing from all JIRA notifications..."
    } else if i == 6 {
        "✗ Mass-deleting Slack threads about \"quick syncs\"..."
    } else if i == 7 {
        "✗ Revoking access to the monorepo..."
    } else if i == 8 {
        "✗ Archiving 847 unread PR reviews..."
    } else if i == 9 {
        "✗ Ejecting from create-react-app... spiritually..."
    } else if i == 10 {
        "✗ Dropping all production tables... in my dreams..."
    } else if i == 11 {
        "✗ Closing 94 Chrome tabs of Stack Overflow..."
    } else if i == 12 {
        "✗ Deleting \"fix\" commits from existence..."
    } else {
        "✗ Reverting the revert of the revert..."
    }
}

/// The printed line of a fake error on a terminal of `width` columns.
pub fn fake_error_line(message: &str, width: u16) -> (s: String)
    ensures
        s@ == "  "@ + spec_fit_error(message@, width as nat) + "\n"@,
{
    let fitted: String = fit_error_to_width(message, width);
    let mut s = String::new();
    push_str(&mut s, "  ");
    push_str(&mut s, fitted.as_str());
    push_str(&mut s, "\n");
    s
}

/// The random pause after a fake error, in milliseconds (before scaling).
pub fn fake_error_pause() -> (ms: u64)
    ensures
        80 <= ms < 250,
{
    random_below(80, 250)
}


// ---------------------------------------------------------------------------
// Frame schedules
// ---------------------------------------------------------------------------

/// One frame of the rage meter: the text printed, its color, and the pause
/// (before scaling) after it.
#[derive(Debug)]
pub struct MeterFrame {
    pub text: String,
    pub color: MeterColor,
    pub pause_ms: u64,
}

/// The number of times the full meter flashes.
pub const RAGE_FLASHES: usize = 3;

/// The width of the rage meter's bar on a terminal of `width` columns.
pub open spec fn spec_rage_bar_width(width: nat) -> nat {
    if width < 60 {
        width
    } else {
        60
    }
}

/// The text of a rage meter frame.
pub open spec fn rage_meter_text(filled: nat, bar_width: nat, pct: nat) -> Seq<char> {
    "\r  RAGE LEVEL ["@ + bar_cells(filled, bar_width) + "] "@ + decimal(pct) + "%"@
}

/// The text of the full rage meter.
pub open spec fn rage_meter_full_text(bar_width: nat) -> Seq<char> {
    "\r  RAGE LEVEL ["@ + repeat_char('█', bar_width) + "] 100%"@
}

/// The frames of the rage meter on a terminal of `width` columns, given the
/// percentage shown at each of its `RAGE_METER_STEPS + 1` steps: the meter
/// fills step by step (60 ms apart), then flashes dark and bright three
/// times (100 ms apart).
pub fn rage_meter_frames(width: u16, percents: &Vec<u8>) -> (frames: Vec<MeterFrame>)
    requires
        percents.len() == RAGE_METER_STEPS + 1,
    ensures
        frames.len() == RAGE_METER_STEPS + 1 + 2 * RAGE_FLASHES,
        forall|i: int|
            0 <= i <= RAGE_METER_STEPS ==> {
                &&& (#[trigger] frames@[i]).text@ == rage_meter_text(
                    ((i * spec_rage_bar_width(width as nat)) / 50) as nat,
                    spec_rage_bar_width(width as nat),
                    percents@[i] as nat,
                )
                &&& frames@[i].color == spec_rage_color(percents@[i] as nat)
                &&& frames@[i].pause_ms == 60
            },
        forall|i: int|
            RAGE_METER_STEPS < i < frames.len() ==> {
                &&& (#[trigger] frames@[i]).text@ == rage_meter_full_text(
                    spec_rage_bar_width(width as nat),
                )
                &&& frames@[i].color == if (i - RAGE_METER_STEPS) % 2 == 1 {
                    MeterColor::DarkRed
                } else {
                    MeterColor::Glow
                }
                &&& frames@[i].pause_ms == 100
            },
{
    let bar_width: usize = rage_bar_width(width);
    let mut frames: Vec<MeterFrame> = Vec::new();
    let mut i: usize = 0;
    while i <= RAGE_METER_STEPS
        invariant
            i <= RAGE_METER_STEPS + 1,
            percents.len() == RAGE_METER_STEPS + 1,
            bar_width == spec_rage_bar_width(width as nat),
            frames.len() == i,
            forall|k: int|
                0 <= k < i ==> {
                    &&& (#[trigger] frames@[k]).text@ == rage_meter_text(
                        ((k * spec_rage_bar_width(width as nat)) / 50) as nat,
                        spec_rage_bar_width(width as nat),
                        percents@[k] as nat,
                    )
                    &&& frames@[k].color == spec_rage_color(percents@[k] as nat)
                    &&& frames@[k].pause_ms == 60
                },
        decreases RAGE_METER_STEPS + 1 - i,
    {
        assert(i * bar_width <= 50 * 60) by (nonlinear_arith)
            requires
                i <= 50,
                bar_width <= 60,
        ;
        let filled: usize = meter_fill(i, RAGE_METER_STEPS, bar_width);
        let pct: u8 = percents[i];
        let frame = MeterFrame {
            text: rage_meter_line(filled, bar_width, pct),
            color: rage_color(pct),
            pause_ms: 60,
        };
        frames.push(frame);
        i = i + 1;
    }
    let mut j: usize = 0;
    while j < RAGE_FLASHES
        invariant
            j <= RAGE_FLASHES,
            bar_width == spec_rage_bar_width(width as nat),
            frames.len() == RAGE_METER_STEPS + 1 + 2 * j,
            forall|k: int|
                0 <= k <= RAGE_METER_STEPS ==> {
                    &&& (#[trigger] frames@[k]).text@ == rage_meter_text(
                        ((k * spec_rage_bar_width(width as nat)) / 50) as nat,
                        spec_rage_bar_width(width as nat),
                        percents@[k] as nat,
                    )
                    &&& frames@[k].color == spec_rage_color(percents@[k] as nat)
                    &&& frames@[k].pause_ms == 60
                },
            forall|k: int|
                RAGE_METER_STEPS < k < frames.len() ==> {
                    &&& (#[trigger] frames@[k]).text@ == rage_meter_full_text(
                        spec_rage_bar_width(width as nat),
                    )
                    &&& frames@[k].color == if (k - RAGE_METER_STEPS) % 2 == 1 {
                        MeterColor::DarkRed
                    } else {
                        MeterColor::Glow
                    }
                    &&& frames@[k].pause_ms == 100
                },
        decreases RAGE_FLASHES - j,
    {
        let dark = MeterFrame {
            text: rage_meter_full_line(bar_width),
            color: MeterColor::DarkRed,
            pause_ms: 100,
        };
        frames.push(dark);
        let bright = MeterFrame {
            text: rage_meter_full_line(bar_width),
            color: MeterColor::Glow,
            pause_ms: 100,
        };
        frames.push(bright);
        j = j + 1;
    }
    frames
}

/// One frame of a progress bar: the text printed, its color, and the pause
/// (before scaling) after it.
#[derive(Debug)]
pub struct ProgressFrame {
    pub text: String,
    pub color: ProgressColor,
    pub pause_ms: u64,
}

/// A progress bar's color at `pct` percent.
pub open spec fn spec_progress_color(pct: nat) -> ProgressColor {
    if pct < 50 {
        ProgressColor::Orange
    } else if pct < 90 {
        ProgressColor::Red
    } else {
        ProgressColor::DarkRed
    }
}

/// The frames of a progress bar that lasts `duration_ms`, given the
/// percentage shown at each of its `PROGRESS_STEPS + 1` steps.
pub fn progress_bar_frames(label: &str, verb: &str, duration_ms: u64, percents: &Vec<u8>) -> (
    frames: Vec<ProgressFrame>)
    requires
        percents.len() == PROGRESS_STEPS + 1,
    ensures
        frames.len() == PROGRESS_STEPS + 1,
        forall|i: int|
            0 <= i < frames.len() ==> {
                &&& (#[trigger] frames@[i]).text@ == spec_progress_status(
                    verb@,
                    ((i * 30) / 50) as nat,
                    30,
                    percents@[i] as nat,
                    label@,
                )
                &&& frames@[i].color == spec_progress_color(percents@[i] as nat)
                &&& frames@[i].pause_ms == duration_ms / 50
            },
{
    let mut frames: Vec<ProgressFrame> = Vec::new();
    let mut i: usize = 0;
    while i <= PROGRESS_STEPS
        invariant
            i <= PROGRESS_STEPS + 1,
            percents.len() == PROGRESS_STEPS + 1,
            frames.len() == i,
            forall|k: int|
                0 <= k < i ==> {
                    &&& (#[trigger] frames@[k]).text@ == spec_progress_status(
                        verb@,
                        ((k * 30) / 50) as nat,
                        30,
                        percents@[k] as nat,
                        label@,
                    )
                    &&& frames@[k].color == spec_progress_color(percents@[k] as nat)
                    &&& frames@[k].pause_ms == duration_ms / 50
                },
        decreases PROGRESS_STEPS + 1 - i,
    {
        assert(i * 30 <= 50 * 30) by (nonlinear_arith)
            requires
                i <= 50,
        ;
        let filled: usize = meter_fill(i, PROGRESS_STEPS, PROGRESS_BAR_WIDTH);
        let pct: u8 = percents[i];
        let frame = ProgressFrame {
            text: progress_status(verb, filled, PROGRESS_BAR_WIDTH, pct, label),
            color: progress_color(pct),
            pause_ms: progress_step_delay(duration_ms),
        };
        frames.push(frame);
        i = i + 1;
    }
    frames
}

/// The pause (before scaling) after each frame of the fire.
pub const FIRE_FRAME_PAUSE_MS: u64 = 40;

/// The pause (before scaling) with the fire at its full height.
pub const FIRE_HOLD_MS: u64 = 300;

/// One frame of the fire: blank rows above, then the rows of flames, and
/// the pause (before scaling) after it is drawn.
#[derive(Debug)]
pub struct FireFrame {
    pub blank_rows: u64,
    pub rows: Vec<Vec<FireCell>>,
    pub pause_ms: u64,
}

/// A row of `width` flame cells valid for row `y` of `rows`.
pub open spec fn fire_row_valid(cells: Seq<FireCell>, y: nat, rows: nat, width: nat) -> bool {
    &&& cells.len() == width
    &&& forall|i: int| 0 <= i < width ==> is_fire_glyph(#[trigger] cells[i].glyph)
    &&& forall|i: int|
        0 <= i < width ==> fire_color_range(y, rows).0 <= fire_color_index(#[trigger] cells[i].color)
            < fire_color_range(y, rows).1
}

/// A frame of the fire at height `row_count` on a screen of `height` rows
/// and `width` columns: `height - row_count` blank rows above `row_count`
/// rows of flames, the top one the coolest, then a pause of
/// `FIRE_FRAME_PAUSE_MS`.
pub open spec fn fire_frame_valid(frame: FireFrame, width: nat, height: nat, row_count: nat) -> bool {
    &&& frame.blank_rows == height - row_count
    &&& frame.rows.len() == row_count
    &&& frame.pause_ms == FIRE_FRAME_PAUSE_MS
    &&& forall|y: int|
        0 <= y < row_count ==> fire_row_valid(
            (#[trigger] frame.rows@[y])@,
            y as nat,
            row_count,
            width,
        )
}

/// The frame of the fire at height `row_count` on a screen of `height` rows
/// and `width` columns.
pub fn fire_frame(width: usize, height: u64, row_count: u64) -> (frame: FireFrame)
    requires
        1 <= row_count <= height <= 0xFFFF,
    ensures
        fire_frame_valid(frame, width as nat, height as nat, row_count as nat),
{
    let mut rows: Vec<Vec<FireCell>> = Vec::new();
    let mut y: u64 = 0;
    while y < row_count
        invariant
            y <= row_count <= 0xFFFF,
            rows.len() == y,
            forall|k: int|
                0 <= k < y ==> fire_row_valid(
                    (#[trigger] rows@[k])@,
                    k as nat,
                    row_count as nat,
                    width as nat,
                ),
        decreases row_count - y,
    {
        let row: Vec<FireCell> = fire_row(y, row_count, width);
        rows.push(row);
        y = y + 1;
    }
    FireFrame { blank_rows: height - row_count, rows, pause_ms: FIRE_FRAME_PAUSE_MS }
}

/// The frames of the fire growing from the bottom of a screen of `height`
/// rows and `width` columns: frame `k` has `k + 1` rows of flames, one frame
/// per row of the screen (none on a screen of no rows). After the last frame
/// the fire holds for `FIRE_HOLD_MS`.
pub fn fire_frames(width: usize, height: u64) -> (frames: Vec<FireFrame>)
    requires
        height <= 0xFFFF,
    ensures
        frames.len() == height,
        forall|k: int|
            0 <= k < height ==> fire_frame_valid(
                #[trigger] frames@[k],
                width as nat,
                height as nat,
                (k + 1) as nat,
            ),
{
    let mut frames: Vec<FireFrame> = Vec::new();
    let mut row_count: u64 = 1;
    while row_count <= height
        invariant
            1 <= row_count <= height + 1,
            height <= 0xFFFF,
            frames.len() == row_count - 1,
            forall|k: int|
                0 <= k < row_count - 1 ==> fire_frame_valid(
                    #[trigger] frames@[k],
                    width as nat,
                    height as nat,
                    (k + 1) as nat,
                ),
        decreases height + 1 - row_count,
    {
        let frame: FireFrame = fire_frame(width, height, row_count);
        frames.push(frame);
        row_count = row_count + 1;
    }
    frames
}

/// One fake error: the line printed, the sound after it, and the random
/// pause (before scaling) that follows.
#[derive(Debug)]
pub struct FakeErrorStep {
    pub line: String,
    pub sound: SoundEffect,
    pub pause_ms: u64,
}

/// The cascade of fake errors on a terminal of `width` columns: every
/// message in order, each followed by the error sound and a random pause.
pub fn fake_error_steps(width: u16) -> (steps: Vec<FakeErrorStep>)
    ensures
        steps.len() == FAKE_ERROR_COUNT,
        forall|i: int|
            0 <= i < FAKE_ERROR_COUNT ==> {
                &&& (#[trigger] steps@[i]).line@ == "  "@ + spec_fit_error(
                    fake_error_message(i),
                    width as nat,
                ) + "\n"@
                &&& steps@[i].sound == SoundEffect::Error
                &&& 80 <= steps@[i].pause_ms < 250
            },
{
    let mut steps: Vec<FakeErrorStep> = Vec::new();
    let mut i: usize = 0;
    while i < FAKE_ERROR_COUNT
        invariant
            i <= FAKE_ERROR_COUNT,
            steps.len() == i,
            forall|k: int|
                0 <= k < i ==> {
                    &&& (#[trigger] steps@[k]).line@ == "  "@ + spec_fit_error(
                        fake_error_message(k),
                        width as nat,
                    ) + "\n"@
                    &&& steps@[k].sound == SoundEffect::Error
                    &&& 80 <= steps@[k].pause_ms < 250
                },
        decreases FAKE_ERROR_COUNT - i,
    {
        let step = FakeErrorStep {
            line: fake_error_line(fake_error_message_at(i), width),
            sound: SoundEffect::Error,
            pause_ms: fake_error_pause(),
        };
        steps.push(step);
        i = i + 1;
    }
    steps
}

} // verus!
