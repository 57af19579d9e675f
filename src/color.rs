use crate::random::{sample_allows, walk_allows};
use crate::range::{ConfigError, RangeConfig, SCALE};
use crate::text::{fixed2, push_fixed2, round_hundredth};
use rand::rngs::StdRng;
use vstd::prelude::*;
use vstd::string::StringExecFns;

verus! {

/// Legal ranges and per-step bounds of the three color channels.
#[derive(Clone, Copy, Debug, PartialEq, Eq, Structural)]
pub struct ColorConfig {
    h: RangeConfig,
    s: RangeConfig,
    l: RangeConfig,
}

impl ColorConfig {
    pub closed spec fn h_spec(&self) -> RangeConfig {
        self.h
    }

    pub closed spec fn s_spec(&self) -> RangeConfig {
        self.s
    }

    pub closed spec fn l_spec(&self) -> RangeConfig {
        self.l
    }

    /// Every channel's range is well formed.
    pub open spec fn wf(&self) -> bool {
        self.h_spec().wf() && self.s_spec().wf() && self.l_spec().wf()
    }

    pub fn new(h: RangeConfig, s: RangeConfig, l: RangeConfig) -> (r: ColorConfig)
        ensures
            r.h_spec() == h,
            r.s_spec() == s,
            r.l_spec() == l,
    {
        ColorConfig { h, s, l }
    }

    /// Hue in `[0, 360)` degrees moving by up to 5 per step; saturation and
    /// lightness in `[0, 1]` moving by up to 0.1.
    pub open spec fn is_default(&self) -> bool {
        &&& self.h_spec().min_spec() == 0 && self.h_spec().max_spec() == 360 * SCALE
            && self.h_spec().delta_spec() == 5 * SCALE
        &&& self.s_spec().min_spec() == 0 && self.s_spec().max_spec() == SCALE
            && self.s_spec().delta_spec() == SCALE / 10
        &&& self.l_spec().min_spec() == 0 && self.l_spec().max_spec() == SCALE
            && self.l_spec().delta_spec() == SCALE / 10
    }

    /// The default ranges, see `is_default`.
    pub fn default() -> (r: ColorConfig)
        ensures
            r.wf(),
            r.is_default(),
    {
        let h = RangeConfig::new(0, 360 * SCALE, 5 * SCALE as u64).unwrap();
        let s = RangeConfig::new(0, SCALE, SCALE as u64 / 10).unwrap();
        let l = RangeConfig::new(0, SCALE, SCALE as u64 / 10).unwrap();
        ColorConfig { h, s, l }
    }

    pub fn h(&self) -> (r: RangeConfig)
        ensures
            r == self.h_spec(),
    {
        self.h
    }

    pub fn s(&self) -> (r: RangeConfig)
        ensures
            r == self.s_spec(),
    {
        self.s
    }

    pub fn l(&self) -> (r: RangeConfig)
        ensures
            r == self.l_spec(),
    {
        self.l
    }
}

/// The CSS text `hsl(H.HH, S.SS%, L.LL%)` of a color whose hue is `h` units
/// of a degree and whose saturation and lightness are `s`, `l` units of a
/// whole: the hue rounded to two decimal places, the two others as percents,
/// which two decimal places give exactly.
pub open spec fn hsl_text(h: int, s: int, l: int) -> Seq<char> {
    seq!['h', 's', 'l', '('] + fixed2(round_hundredth(h)) + seq![',', ' '] + fixed2(s) + seq![
        '%',
        ',',
        ' ',
    ] + fixed2(l) + seq!['%', ')']
}

/// A color by hue, saturation and lightness.
#[derive(Clone, Copy, Debug, PartialEq, Eq, Structural)]
pub struct Color {
    h: i64,
    s: i64,
    l: i64,
}

impl Color {
    pub closed spec fn h_spec(&self) -> int {
        self.h as int
    }

    pub closed spec fn s_spec(&self) -> int {
        self.s as int
    }

    pub closed spec fn l_spec(&self) -> int {
        self.l as int
    }

    /// Each channel lies within its configured closed range.
    pub open spec fn within(&self, config: ColorConfig) -> bool {
        config.h_spec().holds(self.h_spec()) && config.s_spec().holds(self.s_spec())
            && config.l_spec().holds(self.l_spec())
    }

    /// `next` is a legal one-step move of `self` under `config`, channel by channel.
    pub open spec fn step_allows(&self, config: ColorConfig, next: Color) -> bool {
        &&& walk_allows(config.h_spec().min_spec(), config.h_spec().max_spec(), self.h_spec(),
            config.h_spec().delta_spec(), next.h_spec())
        &&& walk_allows(config.s_spec().min_spec(), config.s_spec().max_spec(), self.s_spec(),
            config.s_spec().delta_spec(), next.s_spec())
        &&& walk_allows(config.l_spec().min_spec(), config.l_spec().max_spec(), self.l_spec(),
            config.l_spec().delta_spec(), next.l_spec())
    }

    /// A color whose channels are each sampled from their range.
    pub fn rand(color_config: &ColorConfig, rng: &mut StdRng) -> (r: Color)
        ensures
            sample_allows(color_config.h_spec().min_spec(), color_config.h_spec().max_spec(), r.h_spec()),
            sample_allows(color_config.s_spec().min_spec(), color_config.s_spec().max_spec(), r.s_spec()),
            sample_allows(color_config.l_spec().min_spec(), color_config.l_spec().max_spec(), r.l_spec()),
            color_config.wf() ==> r.within(*color_config),
    {
        let h = color_config.h.sample(rng);
        let s = color_config.s.sample(rng);
        let l = color_config.l.sample(rng);
        Color { h, s, l }
    }

    /// Moves each channel one independent walk step.
    pub fn update(&mut self, color_config: &ColorConfig, rng: &mut StdRng)
        ensures
            old(self).step_allows(*color_config, *final(self)),
            old(self).within(*color_config) ==> final(self).within(*color_config),
    {
        self.h = color_config.h.step(self.h, rng);
        self.s = color_config.s.step(self.s, rng);
        self.l = color_config.l.step(self.l, rng);
    }

    /// Builds a color, rejecting a channel outside its configured range.
    pub fn new(h: i64, s: i64, l: i64, color_config: &ColorConfig) -> (r: Result<Color, ConfigError>)
        ensures
            r is Ok <==> color_config.h_spec().holds(h as int) && color_config.s_spec().holds(s as int)
                && color_config.l_spec().holds(l as int),
            r is Ok ==> r->Ok_0.h_spec() == h && r->Ok_0.s_spec() == s && r->Ok_0.l_spec() == l,
            r is Err ==> r->Err_0 == ConfigError::InvalidRange,
    {
        let c = Color { h, s, l };
        if color_config.h.min() <= h && h <= color_config.h.max() && color_config.s.min() <= s
            && s <= color_config.s.max() && color_config.l.min() <= l && l <= color_config.l.max() {
            Ok(c)
        } else {
            Err(ConfigError::InvalidRange)
        }
    }

    /// The color as CSS text, `hsl(H.HH, S.SS%, L.LL%)`.
    pub fn to_hsl_string(&self) -> (r: String)
        ensures
            r@ == hsl_text(self.h_spec(), self.s_spec(), self.l_spec()),
    {
        let hue: i64 = if self.h >= 0 {
            ((self.h as i128 + 50) / 100) as i64
        } else {
            (-((-(self.h as i128) + 50) / 100)) as i64
        };
        proof {
            reveal_strlit("hsl(");
            reveal_strlit(", ");
            reveal_strlit("%, ");
            reveal_strlit("%)");
        }
        let mut out = String::from_str("hsl(");
        push_fixed2(&mut out, hue);
        out.append(", ");
        push_fixed2(&mut out, self.s);
        out.append("%, ");
        push_fixed2(&mut out, self.l);
        out.append("%)");
        assert(out@ =~= hsl_text(self.h_spec(), self.s_spec(), self.l_spec()));
        out
    }

    pub fn h(&self) -> (r: i64)
        ensures
            r == self.h_spec(),
    {
        self.h
    }

    pub fn s(&self) -> (r: i64)
        ensures
            r == self.s_spec(),
    {
        self.s
    }

    pub fn l(&self) -> (r: i64)
        ensures
            r == self.l_spec(),
    {
        self.l
    }
}

} // verus!
