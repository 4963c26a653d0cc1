use vstd::prelude::*;

use crate::error::{Error, ErrorCode};
use crate::uint::{U24, U24_MAX, U31, U31_MAX};
use crate::wire::{
    drop_front, lemma_u16_round_trip, lemma_u32_round_trip, push_u16, push_u32, read_u16,
    read_u32, u16_bytes, u16_of, u32_bytes, u32_of,
};

verus! {

broadcast use {
    U31::lemma_spec_new,
    U31::lemma_value_determines,
    U24::lemma_spec_new,
    U24::lemma_value_determines,
};

/// Smallest value that MAX_FRAME_SIZE may announce.
pub const MIN_MAX_FRAME_SIZE: u32 = 0x4000;

/// One parameter of a SETTINGS frame.
#[derive(Clone, Copy, Debug, PartialEq, Eq, Structural)]
pub enum Setting {
    HeaderTableSize(u32),
    EnablePush(bool),
    MaxConcurrentStreams(u32),
    InitialWindowSize(U31),
    MaxFrameSize(U24),
    MaxHeaderListSize(u32),
    Unknown(u16, u32),
}

/// The 16-bit identifier of a setting on the wire.
pub open spec fn setting_id(s: Setting) -> u16 {
    match s {
        Setting::HeaderTableSize(_) => 0x1,
        Setting::EnablePush(_) => 0x2,
        Setting::MaxConcurrentStreams(_) => 0x3,
        Setting::InitialWindowSize(_) => 0x4,
        Setting::MaxFrameSize(_) => 0x5,
        Setting::MaxHeaderListSize(_) => 0x6,
        Setting::Unknown(id, _) => id,
    }
}

/// The 32-bit value of a setting on the wire; ENABLE_PUSH is written as 0 or 1.
pub open spec fn setting_value(s: Setting) -> u32 {
    match s {
        Setting::HeaderTableSize(v) => v,
        Setting::EnablePush(b) => if b {
            1
        } else {
            0
        },
        Setting::MaxConcurrentStreams(v) => v,
        Setting::InitialWindowSize(v) => v.value(),
        Setting::MaxFrameSize(v) => v.value(),
        Setting::MaxHeaderListSize(v) => v,
        Setting::Unknown(_, v) => v,
    }
}

/// The six bytes of a setting: identifier, then value.
pub open spec fn setting_bytes(s: Setting) -> Seq<u8> {
    u16_bytes(setting_id(s)) + u32_bytes(setting_value(s))
}

/// The setting that identifier `id` and value `v` stand for, or the error that
/// rejects them.
pub open spec fn setting_of(id: u16, v: u32) -> Result<Setting, ErrorCode> {
    if id == 0x1 {
        Ok(Setting::HeaderTableSize(v))
    } else if id == 0x2 {
        Ok(Setting::EnablePush(v != 0))
    } else if id == 0x3 {
        Ok(Setting::MaxConcurrentStreams(v))
    } else if id == 0x4 {
        if v > U31_MAX {
            Err(ErrorCode::ProtocolError)
        } else {
            Ok(Setting::InitialWindowSize(U31::spec_new(v)))
        }
    } else if id == 0x5 {
        if v < MIN_MAX_FRAME_SIZE || v > U24_MAX {
            Err(ErrorCode::ProtocolError)
        } else {
            Ok(Setting::MaxFrameSize(U24::spec_new(v)))
        }
    } else if id == 0x6 {
        Ok(Setting::MaxHeaderListSize(v))
    } else {
        Ok(Setting::Unknown(id, v))
    }
}

/// The setting read from the six bytes at the front of `s`.
pub open spec fn setting_of_bytes(s: Seq<u8>) -> Result<Setting, ErrorCode> {
    setting_of(u16_of(s), u32_of(s.subrange(2, s.len() as int)))
}

/// A setting that can stand on the wire: values in their ranges, and `Unknown`
/// holding no defined identifier.
pub open spec fn setting_wf(s: Setting) -> bool {
    match s {
        Setting::InitialWindowSize(v) => v.value() <= U31_MAX,
        Setting::MaxFrameSize(v) => MIN_MAX_FRAME_SIZE <= v.value() <= U24_MAX,
        Setting::Unknown(id, _) => id == 0 || id > 6,
        _ => true,
    }
}

/// A well-formed setting is read back from its six bytes, whatever follows them.
pub proof fn lemma_setting_round_trip(s: Setting, rest: Seq<u8>)
    requires
        setting_wf(s),
    ensures
        setting_of_bytes(setting_bytes(s) + rest) == Ok::<Setting, ErrorCode>(s),
{
    let b = setting_bytes(s) + rest;
    assert(b =~= u16_bytes(setting_id(s)) + (u32_bytes(setting_value(s)) + rest));
    lemma_u16_round_trip(setting_id(s), u32_bytes(setting_value(s)) + rest);
    assert(b.subrange(2, b.len() as int) =~= u32_bytes(setting_value(s)) + rest);
    lemma_u32_round_trip(setting_value(s), rest);
}

/// Reads the setting at `s[at..at + 6]`.
pub fn read_setting(s: &[u8], at: usize) -> (r: Result<Setting, ErrorCode>)
    requires
        at + 6 <= s@.len(),
    ensures
        r == setting_of_bytes(s@.subrange(at as int, s@.len() as int)),
        r matches Ok(x) ==> setting_wf(x),
{
    let _len = s.len();
    let id = read_u16(s, at);
    let v = read_u32(s, at + 2);
    let ghost t = s@.subrange(at as int, s@.len() as int);
    assert(t.subrange(2, t.len() as int) =~= s@.subrange(at + 2, s@.len() as int));
    match id {
        0x1 => Ok(Setting::HeaderTableSize(v)),
        0x2 => Ok(Setting::EnablePush(v != 0)),
        0x3 => Ok(Setting::MaxConcurrentStreams(v)),
        0x4 => {
            if v > U31_MAX {
                Err(ErrorCode::ProtocolError)
            } else {
                Ok(Setting::InitialWindowSize(U31::new(v)))
            }
        },
        0x5 => {
            if v < MIN_MAX_FRAME_SIZE || v > U24_MAX {
                Err(ErrorCode::ProtocolError)
            } else {
                Ok(Setting::MaxFrameSize(U24::new(v)))
            }
        },
        0x6 => Ok(Setting::MaxHeaderListSize(v)),
        _ => Ok(Setting::Unknown(id, v)),
    }
}

/// Appends the six bytes of `s`.
pub fn push_setting(dst: &mut Vec<u8>, s: Setting)
    ensures
        final(dst)@ == old(dst)@ + setting_bytes(s),
{
    let (id, v): (u16, u32) = match s {
        Setting::HeaderTableSize(v) => (0x1, v),
        Setting::EnablePush(b) => (0x2, if b {
            1
        } else {
            0
        }),
        Setting::MaxConcurrentStreams(v) => (0x3, v),
        Setting::InitialWindowSize(v) => (0x4, v.as_u32()),
        Setting::MaxFrameSize(v) => (0x5, v.as_u32()),
        Setting::MaxHeaderListSize(v) => (0x6, v),
        Setting::Unknown(id, v) => (id, v),
    };
    push_u16(dst, id);
    push_u32(dst, v);
    assert(final(dst)@ =~= old(dst)@ + setting_bytes(s));
}

/// Reads and writes single SETTINGS parameters.
pub struct SettingCodec;

impl SettingCodec {
    /// Takes one setting off the front of `src`; `None`, with `src` untouched,
    /// while fewer than six bytes are there. A value out of its range is a
    /// protocol error; its six bytes are taken all the same.
    pub fn decode(&mut self, src: &mut Vec<u8>) -> (r: Result<Option<Setting>, Error>)
        ensures
            old(src)@.len() < 6 ==> (r matches Ok(None)) && final(src)@ == old(src)@,
            old(src)@.len() >= 6 ==> final(src)@ == old(src)@.subrange(6, old(src)@.len() as int)
                && match setting_of_bytes(old(src)@) {
                Ok(x) => r == Ok::<Option<Setting>, Error>(Some(x)),
                Err(c) => r == Err::<Option<Setting>, Error>(Error::Http(c)),
            },
    {
        if src.len() < 6 {
            return Ok(None);
        }
        let r = read_setting(src.as_slice(), 0);
        assert(src@.subrange(0, src@.len() as int) =~= src@);
        drop_front(src, 6);
        match r {
            Ok(x) => Ok(Some(x)),
            Err(c) => Err(Error::Http(c)),
        }
    }

    /// Appends the six bytes of `item`.
    pub fn encode(&mut self, item: Setting, dst: &mut Vec<u8>) -> (r: Result<(), Error>)
        ensures
            r matches Ok(()),
            final(dst)@ == old(dst)@ + setting_bytes(item),
    {
        push_setting(dst, item);
        Ok(())
    }
}

} // verus!
