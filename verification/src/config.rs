//! Persisted settings: the register bytes that survive a daemon restart.
//!
//! Each settings file is a fixed number of newline-separated decimal byte
//! values. The functions here only encode and decode those bytes; reading
//! and writing the files is I/O and is done by the caller. A missing or
//! malformed file decodes to nothing, and the caller falls back to the
//! defaults: a parse error never surfaces.

use vstd::prelude::*;
use vstd::string::*;
use crate::keyboard::Rgb;
use crate::text::{
    all_digits, digits_value, is_digit, is_ws, lemma_format_u8_digits, lemma_lines_append,
    lemma_trim_id, lines_of, parse_u8_bytes, push_u8_dec, spec_format_u8, spec_lines,
    spec_parse_u8, spec_trim, trim_bytes,
};

verus! {

/// One value per line, each line the decimal rendering of the value
/// followed by a line feed.
pub open spec fn spec_encode_values(vals: Seq<u8>) -> Seq<u8>
    decreases vals.len(),
{
    if vals.len() == 0 {
        Seq::empty()
    } else {
        spec_format_u8(vals[0]) + seq![10u8] + spec_encode_values(vals.skip(1))
    }
}

/// The value denoted by line `i`, trimmed.
pub open spec fn spec_parsed_line(ls: Seq<Seq<u8>>, i: int) -> Option<u8> {
    spec_parse_u8(spec_trim(ls[i]))
}

/// The first `n` lines of `s`, each parsed as a decimal byte value.
/// Nothing when there are fewer than `n` lines or any of them fails to
/// parse; lines beyond the first `n` are ignored.
pub open spec fn spec_decode_values(s: Seq<u8>, n: int) -> Option<Seq<u8>> {
    let ls = spec_lines(s);
    if ls.len() < n {
        None
    } else if forall|i: int| 0 <= i < n ==> #[trigger] spec_parsed_line(ls, i) is Some {
        Some(Seq::new(n as nat, |i: int| spec_parsed_line(ls, i).unwrap()))
    } else {
        None
    }
}

/// Encoding then splitting into lines gives back exactly one line per
/// value, each the decimal rendering of its value.
pub proof fn lemma_encode_lines(vals: Seq<u8>)
    ensures
        spec_lines(spec_encode_values(vals)).len() == vals.len(),
        forall|i: int|
            0 <= i < vals.len() ==> #[trigger] spec_lines(spec_encode_values(vals))[i]
                == spec_format_u8(vals[i]),
    decreases vals.len(),
{
    if vals.len() > 0 {
        let f = spec_format_u8(vals[0]);
        lemma_format_u8_digits(vals[0]);
        let rest = spec_encode_values(vals.skip(1));
        assert(spec_encode_values(vals) =~= f + seq![10u8] + rest);
        assert(forall|k: int| 0 <= k < f.len() ==> #[trigger] f[k] != 10) by {
            assert(all_digits(f));
        }
        lemma_lines_append(f, rest, Seq::empty());
        assert(Seq::<u8>::empty() + f =~= f);
        assert(f[f.len() - 1] != 13);
        lemma_encode_lines(vals.skip(1));
        let ls = spec_lines(spec_encode_values(vals));
        assert(ls == seq![f] + spec_lines(rest));
        assert forall|i: int| 0 <= i < vals.len() implies #[trigger] ls[i] == spec_format_u8(
            vals[i],
        ) by {
            if i > 0 {
                assert(vals.skip(1)[i - 1] == vals[i]);
                assert(ls[i] == spec_lines(rest)[i - 1]);
            }
        }
    }
}

/// The decimal rendering of a byte value, trimmed, parses back to it.
pub proof fn lemma_parse_format(v: u8)
    ensures
        spec_parse_u8(spec_trim(spec_format_u8(v))) == Some(v),
{
    let f = spec_format_u8(v);
    lemma_format_u8_digits(v);
    assert forall|k: int| 0 <= k < f.len() implies !is_ws(#[trigger] f[k]) by {
        assert(is_digit(f[k]));
    }
    lemma_trim_id(f);
    assert(f[0] != 43);
}

/// Encoding then decoding gives back exactly the encoded values.
pub proof fn lemma_values_round_trip(vals: Seq<u8>)
    ensures
        spec_decode_values(spec_encode_values(vals), vals.len() as int) == Some(vals),
{
    lemma_encode_lines(vals);
    let n = vals.len() as int;
    let ls = spec_lines(spec_encode_values(vals));
    assert forall|i: int| 0 <= i < n implies #[trigger] spec_parsed_line(ls, i) == Some(
        vals[i],
    ) by {
        lemma_parse_format(vals[i]);
    }
    assert(Seq::new(n as nat, |i: int| spec_parsed_line(ls, i).unwrap()) =~= vals);
}

/// Encode `vals`, one line each.
pub fn encode_values(vals: &[u8]) -> (r: Vec<u8>)
    ensures
        r@ == spec_encode_values(vals@),
{
    let mut out: Vec<u8> = Vec::new();
    let mut i: usize = 0;
    proof {
        assert(vals@.skip(0) =~= vals@);
        assert(out@ + spec_encode_values(vals@) =~= spec_encode_values(vals@));
    }
    while i < vals.len()
        invariant
            i <= vals@.len(),
            out@ + spec_encode_values(vals@.skip(i as int)) == spec_encode_values(vals@),
        decreases vals@.len() - i,
    {
        let ghost prev = out@;
        proof {
            assert(vals@.skip(i as int)[0] == vals@[i as int]);
            assert(vals@.skip(i as int).skip(1) =~= vals@.skip(i as int + 1));
        }
        push_u8_dec(&mut out, vals[i]);
        out.push(10);
        proof {
            assert(out@ =~= prev + (spec_format_u8(vals@[i as int]) + seq![10u8]));
            assert(out@ + spec_encode_values(vals@.skip(i as int + 1)) =~= prev
                + spec_encode_values(vals@.skip(i as int)));
        }
        i += 1;
    }
    proof {
        assert(vals@.skip(i as int) =~= Seq::<u8>::empty());
        assert(out@ + Seq::<u8>::empty() =~= out@);
    }
    out
}

/// Decode the first `n` lines of `content` as decimal byte values.
pub fn decode_values(content: &[u8], n: usize) -> (r: Option<Vec<u8>>)
    ensures
        (r is Some) == (spec_decode_values(content@, n as int) is Some),
        r is Some ==> r.unwrap()@ == spec_decode_values(content@, n as int).unwrap(),
{
    let ls = lines_of(content);
    let ghost lsv = spec_lines(content@);
    if ls.len() < n {
        return None;
    }
    let mut vals: Vec<u8> = Vec::new();
    let mut i: usize = 0;
    while i < n
        invariant
            i <= n,
            n <= ls@.len(),
            ls.deep_view() == lsv,
            lsv == spec_lines(content@),
            vals@.len() == i,
            forall|k: int|
                0 <= k < i ==> #[trigger] spec_parsed_line(lsv, k) == Some(vals@[k]),
        decreases n - i,
    {
        proof {
            assert(ls@[i as int]@ == lsv[i as int]);
        }
        let t = trim_bytes(ls[i].as_slice());
        match parse_u8_bytes(t.as_slice()) {
            Some(v) => {
                vals.push(v);
            },
            None => {
                proof {
                    assert(spec_parsed_line(lsv, i as int) is None);
                }
                return None;
            },
        }
        i += 1;
    }
    proof {
        assert(spec_decode_values(content@, n as int) is Some);
        assert(vals@ =~= Seq::new(n as nat, |k: int| spec_parsed_line(lsv, k).unwrap()));
    }
    Some(vals)
}

/// The settings directory path followed by a file name.
pub fn conf_path(name: &str) -> (r: String)
    ensures
        r@ == "/etc/nitrosense/"@ + name@,
{
    let mut p = String::from_str("/etc/nitrosense/");
    p.append(name);
    p
}

/// The register bytes that the daemon re-applies or persists across
/// restarts, one per controlled setting.
#[derive(Debug, Clone, Copy, PartialEq, Eq, Structural)]
pub struct NitroConfig {
    pub cpu_mode: u8,
    pub gpu_mode: u8,
    pub kb_timeout: u8,
    pub usb_charging: u8,
    pub nitro_mode: u8,
    pub battery_charge_limit: u8,
}

impl NitroConfig {
    /// The file's fields, in their fixed order.
    pub open spec fn spec_fields(self) -> Seq<u8> {
        seq![
            self.cpu_mode,
            self.gpu_mode,
            self.kb_timeout,
            self.usb_charging,
            self.nitro_mode,
            self.battery_charge_limit,
        ]
    }

    /// The all-zero default used when no file exists.
    pub open spec fn spec_zero() -> NitroConfig {
        NitroConfig {
            cpu_mode: 0,
            gpu_mode: 0,
            kb_timeout: 0,
            usb_charging: 0,
            nitro_mode: 0,
            battery_charge_limit: 0,
        }
    }

    /// The persisted rendering: six decimal values, one per line.
    pub open spec fn spec_encode(self) -> Seq<u8> {
        spec_encode_values(self.spec_fields())
    }

    /// The settings denoted by a file's bytes, or nothing when the file is
    /// short or malformed.
    pub open spec fn spec_decode(s: Seq<u8>) -> Option<NitroConfig> {
        match spec_decode_values(s, 6) {
            Some(v) => Some(
                NitroConfig {
                    cpu_mode: v[0],
                    gpu_mode: v[1],
                    kb_timeout: v[2],
                    usb_charging: v[3],
                    nitro_mode: v[4],
                    battery_charge_limit: v[5],
                },
            ),
            None => None,
        }
    }

    /// The bytes that persist this configuration; the caller writes them
    /// to the settings file.
    pub fn save(&self) -> (r: Vec<u8>)
        ensures
            r@ == self.spec_encode(),
    {
        let mut fields: Vec<u8> = Vec::new();
        fields.push(self.cpu_mode);
        fields.push(self.gpu_mode);
        fields.push(self.kb_timeout);
        fields.push(self.usb_charging);
        fields.push(self.nitro_mode);
        fields.push(self.battery_charge_limit);
        proof {
            assert(fields@ =~= self.spec_fields());
        }
        encode_values(fields.as_slice())
    }

    /// Decode a settings file's bytes.
    pub fn load(content: &[u8]) -> (r: Option<NitroConfig>)
        ensures
            r == Self::spec_decode(content@),
    {
        match decode_values(content, 6) {
            Some(v) => Some(
                NitroConfig {
                    cpu_mode: v[0],
                    gpu_mode: v[1],
                    kb_timeout: v[2],
                    usb_charging: v[3],
                    nitro_mode: v[4],
                    battery_charge_limit: v[5],
                },
            ),
            None => None,
        }
    }

    /// The decoded settings, or the all-zero default when the file is
    /// missing (`None`) or does not decode.
    pub fn load_or_default(content: Option<&[u8]>) -> (r: NitroConfig)
        ensures
            r == Self::spec_load_or_default(content),
    {
        match content {
            Some(b) => match Self::load(b) {
                Some(c) => c,
                None => NitroConfig {
                    cpu_mode: 0,
                    gpu_mode: 0,
                    kb_timeout: 0,
                    usb_charging: 0,
                    nitro_mode: 0,
                    battery_charge_limit: 0,
                },
            },
            None => NitroConfig {
                cpu_mode: 0,
                gpu_mode: 0,
                kb_timeout: 0,
                usb_charging: 0,
                nitro_mode: 0,
                battery_charge_limit: 0,
            },
        }
    }

    /// What `load_or_default` returns for a file's bytes, or for a missing
    /// file.
    pub open spec fn spec_load_or_default(content: Option<&[u8]>) -> NitroConfig {
        match content {
            Some(b) => match Self::spec_decode(b@) {
                Some(c) => c,
                None => Self::spec_zero(),
            },
            None => Self::spec_zero(),
        }
    }
}

/// Saving any settings value and reloading it gives back the same fields.
pub proof fn lemma_settings_round_trip(c: NitroConfig)
    ensures
        NitroConfig::spec_decode(c.spec_encode()) == Some(c),
{
    lemma_values_round_trip(c.spec_fields());
}

/// The persisted keyboard lighting configuration.
#[derive(Debug, Clone, Copy, PartialEq, Eq, Structural)]
pub struct RgbConfig {
    pub mode: u8,
    pub zone: u8,
    pub speed: u8,
    pub brightness: u8,
    pub direction: u8,
    pub color: Rgb,
}

impl Default for RgbConfig {
    fn default() -> (r: Self)
        ensures
            r == RgbConfig::spec_default(),
    {
        RgbConfig {
            mode: 0,
            zone: 0,
            speed: 0,
            brightness: 0,
            direction: 0,
            color: Rgb { r: 255, g: 255, b: 255 },
        }
    }
}

impl RgbConfig {
    /// The default lighting: static white on all zones.
    pub open spec fn spec_default() -> RgbConfig {
        RgbConfig {
            mode: 0,
            zone: 0,
            speed: 0,
            brightness: 0,
            direction: 0,
            color: Rgb::spec_default(),
        }
    }

    /// The file's fields, in their fixed order.
    pub open spec fn spec_fields(self) -> Seq<u8> {
        seq![
            self.mode,
            self.zone,
            self.speed,
            self.brightness,
            self.direction,
            self.color.r,
            self.color.g,
            self.color.b,
        ]
    }

    /// The persisted rendering: eight decimal values, one per line.
    pub open spec fn spec_encode(self) -> Seq<u8> {
        spec_encode_values(self.spec_fields())
    }

    /// The lighting configuration denoted by a file's bytes.
    pub open spec fn spec_decode(s: Seq<u8>) -> Option<RgbConfig> {
        match spec_decode_values(s, 8) {
            Some(v) => Some(
                RgbConfig {
                    mode: v[0],
                    zone: v[1],
                    speed: v[2],
                    brightness: v[3],
                    direction: v[4],
                    color: Rgb { r: v[5], g: v[6], b: v[7] },
                },
            ),
            None => None,
        }
    }

    /// The bytes that persist this configuration.
    pub fn save(&self) -> (r: Vec<u8>)
        ensures
            r@ == self.spec_encode(),
    {
        let mut fields: Vec<u8> = Vec::new();
        fields.push(self.mode);
        fields.push(self.zone);
        fields.push(self.speed);
        fields.push(self.brightness);
        fields.push(self.direction);
        fields.push(self.color.r);
        fields.push(self.color.g);
        fields.push(self.color.b);
        proof {
            assert(fields@ =~= self.spec_fields());
        }
        encode_values(fields.as_slice())
    }

    /// Decode a lighting file's bytes.
    pub fn load(content: &[u8]) -> (r: Option<RgbConfig>)
        ensures
            r == Self::spec_decode(content@),
    {
        match decode_values(content, 8) {
            Some(v) => Some(
                RgbConfig {
                    mode: v[0],
                    zone: v[1],
                    speed: v[2],
                    brightness: v[3],
                    direction: v[4],
                    color: Rgb { r: v[5], g: v[6], b: v[7] },
                },
            ),
            None => None,
        }
    }
}

/// Saving any lighting configuration and reloading it gives back the same
/// fields.
pub proof fn lemma_rgb_round_trip(c: RgbConfig)
    ensures
        RgbConfig::spec_decode(c.spec_encode()) == Some(c),
{
    lemma_values_round_trip(c.spec_fields());
}

} // verus!
