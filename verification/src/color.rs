//! Colour profiles and the downgrade of true colours to what a terminal
//! profile can show.

use crate::cell::PackedRgba;
use std::collections::HashMap;
use vstd::prelude::*;

verus! {

broadcast use vstd::std_specs::hash::group_hash_axioms;

/// What a terminal can show.
#[derive(Debug, Clone, Copy, PartialEq, Eq, Hash, Structural)]
pub enum ColorProfile {
    Mono,
    Ansi16,
    Ansi256,
    TrueColor,
}

/// The two colours of a monochrome terminal.
#[derive(Debug, Clone, Copy, PartialEq, Eq, Hash, Structural)]
pub enum MonoColor {
    Black,
    White,
}

/// The sixteen ANSI colours.
#[derive(Debug, Clone, Copy, PartialEq, Eq, Hash, Structural)]
pub enum Ansi16Color {
    Black,
    Red,
    Green,
    Yellow,
    Blue,
    Magenta,
    Cyan,
    White,
    BrightBlack,
    BrightRed,
    BrightGreen,
    BrightYellow,
    BrightBlue,
    BrightMagenta,
    BrightCyan,
    BrightWhite,
}

impl Ansi16Color {
    /// The colour's number, 0 to 15.
    pub open spec fn spec_code(self) -> u8 {
        match self {
            Ansi16Color::Black => 0,
            Ansi16Color::Red => 1,
            Ansi16Color::Green => 2,
            Ansi16Color::Yellow => 3,
            Ansi16Color::Blue => 4,
            Ansi16Color::Magenta => 5,
            Ansi16Color::Cyan => 6,
            Ansi16Color::White => 7,
            Ansi16Color::BrightBlack => 8,
            Ansi16Color::BrightRed => 9,
            Ansi16Color::BrightGreen => 10,
            Ansi16Color::BrightYellow => 11,
            Ansi16Color::BrightBlue => 12,
            Ansi16Color::BrightMagenta => 13,
            Ansi16Color::BrightCyan => 14,
            Ansi16Color::BrightWhite => 15,
        }
    }

    /// The colour's red, green and blue.
    pub open spec fn spec_rgb(self) -> (u8, u8, u8) {
        match self {
            Ansi16Color::Black => (0, 0, 0),
            Ansi16Color::Red => (205, 0, 0),
            Ansi16Color::Green => (0, 205, 0),
            Ansi16Color::Yellow => (205, 205, 0),
            Ansi16Color::Blue => (0, 0, 238),
            Ansi16Color::Magenta => (205, 0, 205),
            Ansi16Color::Cyan => (0, 205, 205),
            Ansi16Color::White => (229, 229, 229),
            Ansi16Color::BrightBlack => (127, 127, 127),
            Ansi16Color::BrightRed => (255, 0, 0),
            Ansi16Color::BrightGreen => (0, 255, 0),
            Ansi16Color::BrightYellow => (255, 255, 0),
            Ansi16Color::BrightBlue => (92, 92, 255),
            Ansi16Color::BrightMagenta => (255, 0, 255),
            Ansi16Color::BrightCyan => (0, 255, 255),
            Ansi16Color::BrightWhite => (255, 255, 255),
        }
    }

    /// The colour with the given number; numbers above 15 give bright white.
    pub open spec fn spec_from_code(code: int) -> Ansi16Color {
        if code == 0 {
            Ansi16Color::Black
        } else if code == 1 {
            Ansi16Color::Red
        } else if code == 2 {
            Ansi16Color::Green
        } else if code == 3 {
            Ansi16Color::Yellow
        } else if code == 4 {
            Ansi16Color::Blue
        } else if code == 5 {
            Ansi16Color::Magenta
        } else if code == 6 {
            Ansi16Color::Cyan
        } else if code == 7 {
            Ansi16Color::White
        } else if code == 8 {
            Ansi16Color::BrightBlack
        } else if code == 9 {
            Ansi16Color::BrightRed
        } else if code == 10 {
            Ansi16Color::BrightGreen
        } else if code == 11 {
            Ansi16Color::BrightYellow
        } else if code == 12 {
            Ansi16Color::BrightBlue
        } else if code == 13 {
            Ansi16Color::BrightMagenta
        } else if code == 14 {
            Ansi16Color::BrightCyan
        } else {
            Ansi16Color::BrightWhite
        }
    }

    /// The colour's number, 0 to 15.
    pub fn code(self) -> (c: u8)
        ensures
            c == self.spec_code(),
            c < 16,
    {
        match self {
            Ansi16Color::Black => 0,
            Ansi16Color::Red => 1,
            Ansi16Color::Green => 2,
            Ansi16Color::Yellow => 3,
            Ansi16Color::Blue => 4,
            Ansi16Color::Magenta => 5,
            Ansi16Color::Cyan => 6,
            Ansi16Color::White => 7,
            Ansi16Color::BrightBlack => 8,
            Ansi16Color::BrightRed => 9,
            Ansi16Color::BrightGreen => 10,
            Ansi16Color::BrightYellow => 11,
            Ansi16Color::BrightBlue => 12,
            Ansi16Color::BrightMagenta => 13,
            Ansi16Color::BrightCyan => 14,
            Ansi16Color::BrightWhite => 15,
        }
    }

    /// The colour's red, green and blue.
    pub fn rgb(self) -> (c: (u8, u8, u8))
        ensures
            c == self.spec_rgb(),
    {
        match self {
            Ansi16Color::Black => (0, 0, 0),
            Ansi16Color::Red => (205, 0, 0),
            Ansi16Color::Green => (0, 205, 0),
            Ansi16Color::Yellow => (205, 205, 0),
            Ansi16Color::Blue => (0, 0, 238),
            Ansi16Color::Magenta => (205, 0, 205),
            Ansi16Color::Cyan => (0, 205, 205),
            Ansi16Color::White => (229, 229, 229),
            Ansi16Color::BrightBlack => (127, 127, 127),
            Ansi16Color::BrightRed => (255, 0, 0),
            Ansi16Color::BrightGreen => (0, 255, 0),
            Ansi16Color::BrightYellow => (255, 255, 0),
            Ansi16Color::BrightBlue => (92, 92, 255),
            Ansi16Color::BrightMagenta => (255, 0, 255),
            Ansi16Color::BrightCyan => (0, 255, 255),
            Ansi16Color::BrightWhite => (255, 255, 255),
        }
    }

    /// The colour with the given number.
    pub fn from_code(code: u8) -> (c: Ansi16Color)
        ensures
            c == Self::spec_from_code(code as int),
            code < 16 ==> c.spec_code() == code,
    {
        if code == 0 {
            Ansi16Color::Black
        } else if code == 1 {
            Ansi16Color::Red
        } else if code == 2 {
            Ansi16Color::Green
        } else if code == 3 {
            Ansi16Color::Yellow
        } else if code == 4 {
            Ansi16Color::Blue
        } else if code == 5 {
            Ansi16Color::Magenta
        } else if code == 6 {
            Ansi16Color::Cyan
        } else if code == 7 {
            Ansi16Color::White
        } else if code == 8 {
            Ansi16Color::BrightBlack
        } else if code == 9 {
            Ansi16Color::BrightRed
        } else if code == 10 {
            Ansi16Color::BrightGreen
        } else if code == 11 {
            Ansi16Color::BrightYellow
        } else if code == 12 {
            Ansi16Color::BrightBlue
        } else if code == 13 {
            Ansi16Color::BrightMagenta
        } else if code == 14 {
            Ansi16Color::BrightCyan
        } else {
            Ansi16Color::BrightWhite
        }
    }
}

/// A colour as a terminal of some profile takes it.
#[derive(Debug, Clone, Copy, PartialEq, Eq, Hash, Structural)]
pub enum TerminalColor {
    TrueColor(PackedRgba),
    Ansi256(u8),
    Ansi16(Ansi16Color),
    Mono(MonoColor),
}

/// The 256-colour code of a colour: a step of the grey ramp for greys, a
/// cell of the 6 by 6 by 6 cube for the rest.
pub open spec fn ansi256_of(r: u8, g: u8, b: u8) -> u8 {
    if r == g && g == b {
        if r < 8 {
            16u8
        } else if r > 248 {
            231u8
        } else {
            let step = (r - 8) / 10;
            (232 + if step < 23 {
                step
            } else {
                23
            }) as u8
        }
    } else {
        (16 + 36 * (r as int * 6 / 256) + 6 * (g as int * 6 / 256) + (b as int * 6 / 256)) as u8
    }
}

/// Squared distance between two colours, the channels weighted by their
/// share of perceived brightness.
pub open spec fn weighted_distance_of(r: u8, g: u8, b: u8, cr: u8, cg: u8, cb: u8) -> int {
    (r - cr) * (r - cr) * 2126 + (g - cg) * (g - cg) * 7152 + (b - cb) * (b - cb) * 722
}

/// Distance from a colour to an ANSI colour.
pub open spec fn distance_to(r: u8, g: u8, b: u8, c: Ansi16Color) -> int {
    weighted_distance_of(r, g, b, c.spec_rgb().0, c.spec_rgb().1, c.spec_rgb().2)
}

/// Whether `c` is the ANSI colour nearest to `(r, g, b)`: none is nearer,
/// and those with a lower number are farther.
pub open spec fn is_nearest_ansi16(r: u8, g: u8, b: u8, c: Ansi16Color) -> bool {
    &&& forall|k: int|
        0 <= k < 16 ==> distance_to(r, g, b, c) <= distance_to(
            r,
            g,
            b,
            #[trigger] Ansi16Color::spec_from_code(k),
        )
    &&& forall|k: int|
        0 <= k < c.spec_code() ==> distance_to(r, g, b, c) < distance_to(
            r,
            g,
            b,
            #[trigger] Ansi16Color::spec_from_code(k),
        )
}

/// Perceived brightness of a colour, 0 to 255.
pub open spec fn luma_of(r: u8, g: u8, b: u8) -> int {
    (r as int * 2126 + g as int * 7152 + b as int * 722) / 10000
}

/// Black or white, by perceived brightness.
pub open spec fn mono_of(r: u8, g: u8, b: u8) -> MonoColor {
    if luma_of(r, g, b) >= 128 {
        MonoColor::White
    } else {
        MonoColor::Black
    }
}

/// The 256-colour code of a colour.
pub fn rgb_to_256(r: u8, g: u8, b: u8) -> (code: u8)
    ensures
        code == ansi256_of(r, g, b),
{
    if r == g && g == b {
        if r < 8 {
            return 16;
        }
        if r > 248 {
            return 231;
        }
        let step = (r - 8) / 10;
        return 232 + if step < 23 {
            step
        } else {
            23
        };
    }
    let r6: u8 = ((r as u16) * 6 / 256) as u8;
    let g6: u8 = ((g as u16) * 6 / 256) as u8;
    let b6: u8 = ((b as u16) * 6 / 256) as u8;
    16 + 36 * r6 + 6 * g6 + b6
}

/// Squared weighted distance between two colours.
pub fn weighted_distance(r: u8, g: u8, b: u8, cr: u8, cg: u8, cb: u8) -> (d: u32)
    ensures
        d == weighted_distance_of(r, g, b, cr, cg, cb),
        d <= 650_250_000,
{
    let dr: u32 = if r >= cr {
        (r - cr) as u32
    } else {
        (cr - r) as u32
    };
    let dg: u32 = if g >= cg {
        (g - cg) as u32
    } else {
        (cg - g) as u32
    };
    let db: u32 = if b >= cb {
        (b - cb) as u32
    } else {
        (cb - b) as u32
    };
    proof {
        assert(dr * dr <= 65025 && dr * dr == (r - cr) * (r - cr)) by (nonlinear_arith)
            requires
                0 <= dr <= 255,
                dr == r - cr || dr == cr - r,
        ;
        assert(dg * dg <= 65025 && dg * dg == (g - cg) * (g - cg)) by (nonlinear_arith)
            requires
                0 <= dg <= 255,
                dg == g - cg || dg == cg - g,
        ;
        assert(db * db <= 65025 && db * db == (b - cb) * (b - cb)) by (nonlinear_arith)
            requires
                0 <= db <= 255,
                db == b - cb || db == cb - b,
        ;
    }
    let dr2: u32 = dr * dr;
    let dg2: u32 = dg * dg;
    let db2: u32 = db * db;
    dr2 * 2126 + dg2 * 7152 + db2 * 722
}

/// The ANSI colour nearest to a colour; among equally near ones the one
/// with the lowest number.
pub fn rgb_to_ansi16(r: u8, g: u8, b: u8) -> (best: Ansi16Color)
    ensures
        is_nearest_ansi16(r, g, b, best),
{
    let mut best = Ansi16Color::Black;
    let mut best_dist: u32 = u32::MAX;
    let mut i: u8 = 0;
    while i < 16
        invariant
            0 <= i <= 16,
            i == 0 ==> best_dist == u32::MAX && best == Ansi16Color::Black,
            i > 0 ==> best_dist == distance_to(r, g, b, best) && best.spec_code() < i,
            forall|k: int|
                0 <= k < i ==> best_dist <= distance_to(
                    r,
                    g,
                    b,
                    #[trigger] Ansi16Color::spec_from_code(k),
                ),
            forall|k: int|
                0 <= k < best.spec_code() && i > 0 ==> best_dist < distance_to(
                    r,
                    g,
                    b,
                    #[trigger] Ansi16Color::spec_from_code(k),
                ),
        decreases 16 - i,
    {
        let candidate = Ansi16Color::from_code(i);
        let (cr, cg, cb) = candidate.rgb();
        let dist = weighted_distance(r, g, b, cr, cg, cb);
        if dist < best_dist {
            best_dist = dist;
            best = candidate;
        }
        i += 1;
    }
    best
}

/// Perceived brightness of a colour.
pub fn weighted_luma(r: u8, g: u8, b: u8) -> (l: u8)
    ensures
        l == luma_of(r, g, b),
{
    let luma: u32 = (r as u32) * 2126 + (g as u32) * 7152 + (b as u32) * 722;
    (luma / 10000) as u8
}

/// Black or white, by perceived brightness.
pub fn rgb_to_mono(r: u8, g: u8, b: u8) -> (m: MonoColor)
    ensures
        m == mono_of(r, g, b),
{
    let luma = weighted_luma(r, g, b);
    if luma >= 128 {
        MonoColor::White
    } else {
        MonoColor::Black
    }
}

/// What a colour becomes under a 256-colour profile.
pub open spec fn to_256(color: PackedRgba) -> u8 {
    ansi256_of(color.spec_r(), color.spec_g(), color.spec_b())
}

/// What a colour becomes under a monochrome profile.
pub open spec fn to_mono_color(color: PackedRgba) -> MonoColor {
    mono_of(color.spec_r(), color.spec_g(), color.spec_b())
}

/// Whether `t` is what `color` becomes under `profile`.
pub open spec fn is_downgrade_of(profile: ColorProfile, color: PackedRgba, t: TerminalColor) -> bool {
    match profile {
        ColorProfile::TrueColor => t == TerminalColor::TrueColor(color),
        ColorProfile::Ansi256 => t == TerminalColor::Ansi256(to_256(color)),
        ColorProfile::Ansi16 => t matches TerminalColor::Ansi16(c) && is_nearest_ansi16(
            color.spec_r(),
            color.spec_g(),
            color.spec_b(),
            c,
        ),
        ColorProfile::Mono => t == TerminalColor::Mono(to_mono_color(color)),
    }
}

/// Downgrades colours for one terminal profile and remembers its answers.
#[derive(Debug)]
pub struct ColorDowngrader {
    profile: ColorProfile,
    cache_256: HashMap<u32, u8>,
    cache_16: HashMap<u32, Ansi16Color>,
    cache_mono: HashMap<u32, MonoColor>,
}

impl ColorDowngrader {
    /// The profile that colours are downgraded for.
    pub closed spec fn spec_profile(&self) -> ColorProfile {
        self.profile
    }

    /// The colours whose 256-colour code is remembered.
    pub closed spec fn cached_256(&self) -> Set<u32> {
        self.cache_256@.dom()
    }

    /// The colours whose ANSI colour is remembered.
    pub closed spec fn cached_16(&self) -> Set<u32> {
        self.cache_16@.dom()
    }

    /// The colours whose monochrome colour is remembered.
    pub closed spec fn cached_mono(&self) -> Set<u32> {
        self.cache_mono@.dom()
    }

    /// Every remembered answer is the answer that would be computed.
    pub closed spec fn wf(&self) -> bool {
        &&& forall|k: u32| #[trigger]
            self.cache_256@.contains_key(k) ==> self.cache_256@[k] == to_256(PackedRgba(k))
        &&& forall|k: u32| #[trigger]
            self.cache_16@.contains_key(k) ==> is_nearest_ansi16(
                PackedRgba(k).spec_r(),
                PackedRgba(k).spec_g(),
                PackedRgba(k).spec_b(),
                self.cache_16@[k],
            )
        &&& forall|k: u32| #[trigger]
            self.cache_mono@.contains_key(k) ==> self.cache_mono@[k] == to_mono_color(
                PackedRgba(k),
            )
    }

    /// A downgrader for `profile` that remembers nothing yet.
    pub fn new(profile: ColorProfile) -> (d: ColorDowngrader)
        ensures
            d.wf(),
            d.spec_profile() == profile,
            d.cached_256() == Set::<u32>::empty(),
            d.cached_16() == Set::<u32>::empty(),
            d.cached_mono() == Set::<u32>::empty(),
    {
        let d = ColorDowngrader {
            profile,
            cache_256: HashMap::new(),
            cache_16: HashMap::new(),
            cache_mono: HashMap::new(),
        };
        assert(d.cached_256() =~= Set::<u32>::empty());
        assert(d.cached_16() =~= Set::<u32>::empty());
        assert(d.cached_mono() =~= Set::<u32>::empty());
        d
    }

    /// The profile that colours are downgraded for.
    pub fn profile(&self) -> (p: ColorProfile)
        ensures
            p == self.spec_profile(),
    {
        self.profile
    }

    /// Changes the profile. A change forgets every remembered answer; a call
    /// with the profile in force changes nothing.
    pub fn set_profile(&mut self, profile: ColorProfile)
        requires
            old(self).wf(),
        ensures
            final(self).wf(),
            final(self).spec_profile() == profile,
            old(self).spec_profile() == profile ==> {
                &&& final(self).cached_256() == old(self).cached_256()
                &&& final(self).cached_16() == old(self).cached_16()
                &&& final(self).cached_mono() == old(self).cached_mono()
            },
            old(self).spec_profile() != profile ==> {
                &&& final(self).cached_256() == Set::<u32>::empty()
                &&& final(self).cached_16() == Set::<u32>::empty()
                &&& final(self).cached_mono() == Set::<u32>::empty()
            },
    {
        if self.profile != profile {
            self.profile = profile;
            self.cache_256.clear();
            self.cache_16.clear();
            self.cache_mono.clear();
            assert(self.cached_256() =~= Set::<u32>::empty());
            assert(self.cached_16() =~= Set::<u32>::empty());
            assert(self.cached_mono() =~= Set::<u32>::empty());
        }
    }

    /// What `color` becomes under the profile in force.
    pub fn downgrade(&mut self, color: PackedRgba) -> (t: TerminalColor)
        requires
            old(self).wf(),
        ensures
            final(self).wf(),
            final(self).spec_profile() == old(self).spec_profile(),
            is_downgrade_of(old(self).spec_profile(), color, t),
            final(self).cached_256() == if old(self).spec_profile() == ColorProfile::Ansi256 {
                old(self).cached_256().insert(color.0)
            } else {
                old(self).cached_256()
            },
            final(self).cached_16() == if old(self).spec_profile() == ColorProfile::Ansi16 {
                old(self).cached_16().insert(color.0)
            } else {
                old(self).cached_16()
            },
            final(self).cached_mono() == if old(self).spec_profile() == ColorProfile::Mono {
                old(self).cached_mono().insert(color.0)
            } else {
                old(self).cached_mono()
            },
    {
        match self.profile {
            ColorProfile::TrueColor => TerminalColor::TrueColor(color),
            ColorProfile::Ansi256 => TerminalColor::Ansi256(self.to_ansi256(color)),
            ColorProfile::Ansi16 => TerminalColor::Ansi16(self.to_ansi16(color)),
            ColorProfile::Mono => TerminalColor::Mono(self.to_mono(color)),
        }
    }

    /// The 256-colour code of `color`; the answer is remembered.
    pub fn to_ansi256(&mut self, color: PackedRgba) -> (code: u8)
        requires
            old(self).wf(),
        ensures
            final(self).wf(),
            code == to_256(color),
            final(self).spec_profile() == old(self).spec_profile(),
            final(self).cached_256() == old(self).cached_256().insert(color.0),
            final(self).cached_16() == old(self).cached_16(),
            final(self).cached_mono() == old(self).cached_mono(),
    {
        let key = color.0;
        match self.cache_256.get(&key) {
            Some(cached) => {
                let code = *cached;
                assert(self.cached_256() =~= old(self).cached_256().insert(color.0));
                return code;
            },
            None => {},
        }
        let code = rgb_to_256(color.r(), color.g(), color.b());
        self.cache_256.insert(key, code);
        assert(self.cached_256() =~= old(self).cached_256().insert(color.0));
        code
    }

    /// The ANSI colour nearest to `color`; the answer is remembered.
    pub fn to_ansi16(&mut self, color: PackedRgba) -> (c: Ansi16Color)
        requires
            old(self).wf(),
        ensures
            final(self).wf(),
            is_nearest_ansi16(color.spec_r(), color.spec_g(), color.spec_b(), c),
            final(self).spec_profile() == old(self).spec_profile(),
            final(self).cached_16() == old(self).cached_16().insert(color.0),
            final(self).cached_256() == old(self).cached_256(),
            final(self).cached_mono() == old(self).cached_mono(),
    {
        let key = color.0;
        match self.cache_16.get(&key) {
            Some(cached) => {
                let mapped = *cached;
                assert(self.cached_16() =~= old(self).cached_16().insert(color.0));
                return mapped;
            },
            None => {},
        }
        let mapped = rgb_to_ansi16(color.r(), color.g(), color.b());
        self.cache_16.insert(key, mapped);
        assert(self.cached_16() =~= old(self).cached_16().insert(color.0));
        mapped
    }

    /// Black or white for `color`; the answer is remembered.
    pub fn to_mono(&mut self, color: PackedRgba) -> (m: MonoColor)
        requires
            old(self).wf(),
        ensures
            final(self).wf(),
            m == to_mono_color(color),
            final(self).spec_profile() == old(self).spec_profile(),
            final(self).cached_mono() == old(self).cached_mono().insert(color.0),
            final(self).cached_256() == old(self).cached_256(),
            final(self).cached_16() == old(self).cached_16(),
    {
        let key = color.0;
        match self.cache_mono.get(&key) {
            Some(cached) => {
                let mapped = *cached;
                assert(self.cached_mono() =~= old(self).cached_mono().insert(color.0));
                return mapped;
            },
            None => {},
        }
        let mapped = rgb_to_mono(color.r(), color.g(), color.b());
        self.cache_mono.insert(key, mapped);
        assert(self.cached_mono() =~= old(self).cached_mono().insert(color.0));
        mapped
    }

    /// Number of colours whose 256-colour code is remembered.
    pub fn cached_256_len(&self) -> (n: usize)
        ensures
            n == self.cached_256().len(),
    {
        self.cache_256.len()
    }

    /// Number of colours whose ANSI colour is remembered.
    pub fn cached_16_len(&self) -> (n: usize)
        ensures
            n == self.cached_16().len(),
    {
        self.cache_16.len()
    }

    /// Number of colours whose monochrome colour is remembered.
    pub fn cached_mono_len(&self) -> (n: usize)
        ensures
            n == self.cached_mono().len(),
    {
        self.cache_mono.len()
    }
}

impl Default for ColorDowngrader {
    fn default() -> (d: ColorDowngrader)
        ensures
            d.wf(),
            d.spec_profile() == ColorProfile::TrueColor,
    {
        ColorDowngrader::new(ColorProfile::TrueColor)
    }
}

} // verus!
