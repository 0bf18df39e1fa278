//! Media sizes as width and height in microns.

use vstd::prelude::*;
use crate::numeric::{dec_digits, append_dec};

verus! {

/// A media size: width and height in microns. A roll medium leaves one
/// side zero.
#[derive(Clone, Copy, PartialEq, Eq, Hash, Structural, Debug)]
pub struct MediaSizeTuple(u32, u32);

impl MediaSizeTuple {
    /// The width in microns.
    pub closed spec fn w(self) -> u32 {
        self.0
    }

    /// The height in microns.
    pub closed spec fn h(self) -> u32 {
        self.1
    }

    /// A size from a width and height in microns.
    pub fn micron(width: u32, height: u32) -> (r: Self)
        ensures
            r.w() == width,
            r.h() == height,
    {
        MediaSizeTuple(width, height)
    }

    /// A size from a width and height in millimeters.
    pub fn mm(width: u32, height: u32) -> (r: Self)
        requires
            width * 1000 <= u32::MAX,
            height * 1000 <= u32::MAX,
        ensures
            r.w() == width * 1000,
            r.h() == height * 1000,
    {
        MediaSizeTuple(width * 1000, height * 1000)
    }

    /// The width in microns.
    pub fn width_in_micron(&self) -> (r: u32)
        ensures
            r == self.w(),
    {
        self.0
    }

    /// The height in microns.
    pub fn height_in_micron(&self) -> (r: u32)
        ensures
            r == self.h(),
    {
        self.1
    }

    /// Set the width in microns.
    pub fn set_width_in_micron(&mut self, width: u32)
        ensures
            final(self).w() == width,
            final(self).h() == old(self).h(),
    {
        self.0 = width;
    }

    /// Set the height in microns.
    pub fn set_height_in_micron(&mut self, height: u32)
        ensures
            final(self).w() == old(self).w(),
            final(self).h() == height,
    {
        self.1 = height;
    }

    /// Whether the medium is a roll: either side is zero.
    pub fn is_roll(&self) -> (r: bool)
        ensures
            r == (self.w() == 0 || self.h() == 0),
    {
        self.0 == 0 || self.1 == 0
    }

    /// The size written out in centimeters, e.g.
    /// `MediaSizeTuple(21.0000 cm × 29.7000 cm)`.
    pub fn describe(&self) -> (r: String)
        ensures
            r@ == describe_spec(self.w(), self.h()),
    {
        proof {
            reveal_strlit("MediaSizeTuple(");
            reveal_strlit(" cm × ");
            reveal_strlit(" cm)");
        }
        let mut out = String::new();
        out.append("MediaSizeTuple(");
        append_cm(self.0, &mut out);
        out.append(" cm × ");
        append_cm(self.1, &mut out);
        out.append(" cm)");
        proof {
            assert(out@ =~= describe_spec(self.w(), self.h()));
        }
        out
    }
}

/// The size with the given width and height in microns.
pub closed spec fn size_of(w: u32, h: u32) -> MediaSizeTuple {
    MediaSizeTuple(w, h)
}

/// What [`size_of`] holds.
pub broadcast proof fn lemma_size_of(w: u32, h: u32)
    ensures
        (#[trigger] size_of(w, h)).w() == w,
        size_of(w, h).h() == h,
{
}

/// Two sizes with the same width and height are the same size.
pub proof fn lemma_size_eq(a: MediaSizeTuple, b: MediaSizeTuple)
    requires
        a.w() == b.w(),
        a.h() == b.h(),
    ensures
        a == b,
{
}

/// A micron count written as centimeters: the whole part, a point, and the
/// fraction zero-padded to four digits.
pub open spec fn cm_spec(v: u32) -> Seq<char> {
    dec_digits(v as nat / 10000) + seq!['.'] + pad4_spec(v as nat % 10000)
}

/// A number below ten thousand, zero-padded to four digits.
pub open spec fn pad4_spec(n: nat) -> Seq<char> {
    if n < 10 {
        seq!['0', '0', '0'] + dec_digits(n)
    } else if n < 100 {
        seq!['0', '0'] + dec_digits(n)
    } else if n < 1000 {
        seq!['0'] + dec_digits(n)
    } else {
        dec_digits(n)
    }
}

/// The canonical text of a media size.
pub open spec fn describe_spec(w: u32, h: u32) -> Seq<char> {
    "MediaSizeTuple("@ + cm_spec(w) + " cm × "@ + cm_spec(h) + " cm)"@
}

/// Append a micron count as centimeters.
fn append_cm(v: u32, out: &mut String)
    ensures
        final(out)@ == old(out)@ + cm_spec(v),
{
    proof {
        reveal_strlit(".");
        reveal_strlit("0");
        reveal_strlit("00");
        reveal_strlit("000");
    }
    append_dec(v / 10000, out);
    out.append(".");
    let frac = v % 10000;
    if frac < 10 {
        out.append("000");
    } else if frac < 100 {
        out.append("00");
    } else if frac < 1000 {
        out.append("0");
    }
    append_dec(frac, out);
    proof {
        assert("000"@ =~= seq!['0', '0', '0']);
        assert("00"@ =~= seq!['0', '0']);
        assert("0"@ =~= seq!['0']);
        assert("."@ =~= seq!['.']);
        assert(final(out)@ =~= old(out)@ + cm_spec(v));
    }
}

} // verus!
