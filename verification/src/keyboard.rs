//! Per-zone RGB keyboard backlight payloads.
//!
//! The backlight driver exposes two character devices: a static one for
//! per-zone colour and a dynamic one for effects and brightness. The
//! functions here only build the payloads and say which device each one
//! goes to; the caller performs the writes, in order.

use vstd::prelude::*;

verus! {

/// RGB colour.
#[derive(Debug, Clone, Copy, PartialEq, Eq, Structural)]
pub struct Rgb {
    pub r: u8,
    pub g: u8,
    pub b: u8,
}

impl Rgb {
    /// White, the colour before any configuration is loaded.
    pub open spec fn spec_default() -> Rgb {
        Rgb { r: 255, g: 255, b: 255 }
    }
}

impl Default for Rgb {
    fn default() -> (r: Self)
        ensures
            r == Rgb::spec_default(),
    {
        Rgb { r: 255, g: 255, b: 255 }
    }
}

/// The two character devices of the keyboard backlight driver.
#[derive(Debug, Clone, Copy, PartialEq, Eq, Structural)]
pub enum KbDevice {
    Static,
    Dynamic,
}

/// One pending write of a payload to a keyboard device.
#[derive(Debug)]
pub struct KbWrite {
    pub device: KbDevice,
    pub payload: Vec<u8>,
}

/// Mathematical image of `KbWrite`.
pub struct KbWriteV {
    pub device: KbDevice,
    pub payload: Seq<u8>,
}

impl View for KbWrite {
    type V = KbWriteV;

    open spec fn view(&self) -> KbWriteV {
        KbWriteV { device: self.device, payload: self.payload@ }
    }
}

impl DeepView for KbWrite {
    type V = KbWriteV;

    open spec fn deep_view(&self) -> KbWriteV {
        self@
    }
}

/// The static-device payload for one zone: a zone bit mask, then the
/// colour. Zones count from 1; the shift distance is masked to the byte
/// width, as the hardware subtraction wraps.
pub open spec fn spec_static_payload(zone: u8, color: Rgb) -> Seq<u8> {
    seq![1u8 << (((zone - 1) as u8) & 7), color.r, color.g, color.b]
}

/// The static-device payload for one zone.
pub fn static_payload(zone: u8, color: Rgb) -> (r: Vec<u8>)
    requires
        zone >= 1,
    ensures
        r@ == spec_static_payload(zone, color),
{
    let mut p: Vec<u8> = Vec::new();
    let zm: u8 = zone - 1;
    let sh: u8 = zm & 7;
    proof {
        assert(zm & 7 < 8) by (bit_vector);
    }
    p.push(1u8 << sh);
    p.push(color.r);
    p.push(color.g);
    p.push(color.b);
    proof {
        assert(p@ =~= spec_static_payload(zone, color));
    }
    p
}

/// The dynamic-device payload that re-applies the default brightness after
/// a static colour change.
pub open spec fn spec_brightness_payload() -> Seq<u8> {
    seq![0u8, 0u8, 0u8, 0u8, 0u8, 0u8, 0u8, 0u8, 0u8, 1u8, 0u8, 0u8, 0u8, 0u8, 0u8, 0u8]
}

/// The brightness payload sent after a static colour change.
pub fn brightness_payload() -> (r: Vec<u8>)
    ensures
        r@ == spec_brightness_payload(),
{
    let mut p: Vec<u8> = Vec::new();
    let mut i: usize = 0;
    while i < 16
        invariant
            i <= 16,
            p@.len() == i,
            forall|k: int| 0 <= k < i ==> p@[k] == (if k == 9 {
                1u8
            } else {
                0u8
            }),
        decreases 16 - i,
    {
        if i == 9 {
            p.push(1);
        } else {
            p.push(0);
        }
        i += 1;
    }
    proof {
        assert(p@ =~= spec_brightness_payload());
    }
    p
}

/// The dynamic-device payload for an effect: mode, speed, brightness, the
/// wave flag, direction and colour, with the trailing enable byte.
pub open spec fn spec_dynamic_payload(
    mode: u8,
    speed: u8,
    brightness: u8,
    direction: u8,
    color: Rgb,
) -> Seq<u8> {
    seq![
        mode,
        speed,
        brightness,
        (if mode == 3 {
            8u8
        } else {
            0u8
        }),
        direction,
        color.r,
        color.g,
        color.b,
        0u8,
        1u8,
        0u8,
        0u8,
        0u8,
        0u8,
        0u8,
        0u8,
    ]
}

/// The writes that apply a dynamic effect: one payload to the dynamic
/// device.
pub open spec fn spec_set_dynamic(
    mode: u8,
    speed: u8,
    brightness: u8,
    direction: u8,
    color: Rgb,
) -> Seq<KbWriteV> {
    seq![
        KbWriteV {
            device: KbDevice::Dynamic,
            payload: spec_dynamic_payload(mode, speed, brightness, direction, color),
        },
    ]
}

/// The writes that apply a static colour: each addressed zone (all four
/// when `zone` is 0), then the brightness payload.
pub open spec fn spec_set_static(zone: u8, color: Rgb) -> Seq<KbWriteV> {
    let brightness = KbWriteV { device: KbDevice::Dynamic, payload: spec_brightness_payload() };
    if zone == 0 {
        seq![
            KbWriteV { device: KbDevice::Static, payload: spec_static_payload(1, color) },
            KbWriteV { device: KbDevice::Static, payload: spec_static_payload(2, color) },
            KbWriteV { device: KbDevice::Static, payload: spec_static_payload(3, color) },
            KbWriteV { device: KbDevice::Static, payload: spec_static_payload(4, color) },
            brightness,
        ]
    } else {
        seq![
            KbWriteV { device: KbDevice::Static, payload: spec_static_payload(zone, color) },
            brightness,
        ]
    }
}

/// The writes that apply a lighting mode: mode 0 is the static per-zone
/// colour, anything else a dynamic effect.
pub open spec fn spec_set_mode(
    mode: u8,
    zone: u8,
    speed: u8,
    brightness: u8,
    direction: u8,
    color: Rgb,
) -> Seq<KbWriteV> {
    if mode == 0 {
        spec_set_static(zone, color)
    } else {
        spec_set_dynamic(mode, speed, brightness, direction, color)
    }
}

/// Build the writes for a static colour change.
pub fn set_static(zone: u8, color: Rgb) -> (r: Vec<KbWrite>)
    ensures
        r.deep_view() == spec_set_static(zone, color),
{
    let mut out: Vec<KbWrite> = Vec::new();
    if zone == 0 {
        let mut z: u8 = 1;
        while z <= 4
            invariant
                1 <= z <= 5,
                out.deep_view().len() == z - 1,
                forall|k: int|
                    0 <= k < z - 1 ==> out.deep_view()[k] == (KbWriteV {
                        device: KbDevice::Static,
                        payload: spec_static_payload((k + 1) as u8, color),
                    }),
            decreases 5 - z,
        {
            let ghost prev = out.deep_view();
            let w = KbWrite { device: KbDevice::Static, payload: static_payload(z, color) };
            let ghost wv = w@;
            out.push(w);
            proof {
                assert(out.deep_view() =~~= prev.push(wv));
            }
            z += 1;
        }
    } else {
        let ghost prev = out.deep_view();
        let w = KbWrite { device: KbDevice::Static, payload: static_payload(zone, color) };
        let ghost wv = w@;
        out.push(w);
        proof {
            assert(out.deep_view() =~~= prev.push(wv));
        }
    }
    let ghost prev = out.deep_view();
    let w = KbWrite { device: KbDevice::Dynamic, payload: brightness_payload() };
    let ghost wv = w@;
    out.push(w);
    proof {
        assert(out.deep_view() =~~= prev.push(wv));
    }
    proof {
        assert(out.deep_view() =~~= spec_set_static(zone, color));
    }
    out
}

/// Build the writes for a dynamic effect.
pub fn set_dynamic(mode: u8, speed: u8, brightness: u8, direction: u8, color: Rgb) -> (r: Vec<
    KbWrite,
>)
    ensures
        r.deep_view() == spec_set_dynamic(mode, speed, brightness, direction, color),
{
    let mut p: Vec<u8> = Vec::new();
    p.push(mode);
    p.push(speed);
    p.push(brightness);
    p.push(if mode == 3 {
        8
    } else {
        0
    });
    p.push(direction);
    p.push(color.r);
    p.push(color.g);
    p.push(color.b);
    p.push(0);
    p.push(1);
    proof {
        assert(p@ =~= spec_dynamic_payload(mode, speed, brightness, direction, color).take(10));
        assert(p@.take(10) =~= p@);
    }
    let mut i: usize = 0;
    while i < 6
        invariant
            i <= 6,
            p@.len() == 10 + i,
            p@.take(10) == spec_dynamic_payload(mode, speed, brightness, direction, color).take(
                10,
            ),
            forall|k: int| 10 <= k < p@.len() ==> p@[k] == 0u8,
        decreases 6 - i,
    {
        p.push(0);
        proof {
            assert(p@.take(10) =~= p@.drop_last().take(10));
        }
        i += 1;
    }
    proof {
        let full = spec_dynamic_payload(mode, speed, brightness, direction, color);
        assert forall|k: int| 0 <= k < 10 implies p@[k] == full[k] by {
            assert(p@.take(10)[k] == full.take(10)[k]);
        }
        assert(p@ =~= full);
    }
    let mut out: Vec<KbWrite> = Vec::new();
    out.push(KbWrite { device: KbDevice::Dynamic, payload: p });
    proof {
        assert(out.deep_view() =~~= spec_set_dynamic(mode, speed, brightness, direction, color));
    }
    out
}

/// Build the writes for a keyboard lighting request: mode 0 applies the
/// static per-zone colour, any other mode a dynamic effect.
pub fn set_mode(mode: u8, zone: u8, speed: u8, brightness: u8, direction: u8, color: Rgb) -> (r:
    Vec<KbWrite>)
    ensures
        r.deep_view() == spec_set_mode(mode, zone, speed, brightness, direction, color),
{
    if mode == 0 {
        set_static(zone, color)
    } else {
        set_dynamic(mode, speed, brightness, direction, color)
    }
}

} // verus!
