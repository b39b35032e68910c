use vstd::prelude::*;

use crate::channel::Channel;
use crate::hex::{hex_rep, push_hex};

verus! {

/// The one failure the library can signal: the requested operation is not
/// implemented.
#[derive(Clone, Copy, Debug, PartialEq, Eq)]
pub enum PixelError {
    Unimplemented,
}

/// The four channels of a tuple as a sequence, in red, green, blue, alpha
/// order.
pub open spec fn channels_seq<T>(c: (T, T, T, T)) -> Seq<T> {
    seq![c.0, c.1, c.2, c.3]
}

/// The hexadecimal rendering of a channel tuple: the marker "0x", then each
/// channel's uppercase hexadecimal digits in red, green, blue, alpha order,
/// none of them padded.
pub open spec fn rgba_hex<T: Channel>(c: (T, T, T, T)) -> Seq<char> {
    seq!['0', 'x'] + hex_rep(c.0.spec_val()) + hex_rep(c.1.spec_val()) + hex_rep(c.2.spec_val())
        + hex_rep(c.3.spec_val())
}

/// A four-channel RGBA color value over one unsigned, bounded integer type.
/// No channel is range-restricted beyond the type's own bounds.
#[derive(Clone, Copy)]
pub struct Pixel<T: Channel> {
    pub r: T,
    pub g: T,
    pub b: T,
    pub a: T,
}

/// Construction, mutation, extraction and rendering of a four-channel RGBA
/// pixel. Every operation is total; only the HSV conversion fails, always,
/// with the unimplemented-operation signal.
pub trait PixelMath<T: Channel>: Sized {
    /// The four channel values of the pixel, in red, green, blue, alpha
    /// order.
    spec fn spec_channels(&self) -> (T, T, T, T);

    /// A pixel with every color channel zero and alpha at the type's
    /// maximum (the zero-color construction defaults alpha to fully
    /// opaque).
    fn default() -> (p: Self)
        ensures
            p.spec_channels() == (T::spec_zero(), T::spec_zero(), T::spec_zero(), T::spec_max()),
    ;

    /// A pixel with the given color channels and alpha at the type's
    /// maximum: fully opaque.
    fn new(r: T, g: T, b: T) -> (p: Self)
        ensures
            p.spec_channels() == (r, g, b, T::spec_max()),
    ;

    /// A pixel with all four channels as given; any value is accepted.
    fn new_rgba(r: T, g: T, b: T, a: T) -> (p: Self)
        ensures
            p.spec_channels() == (r, g, b, a),
    ;

    /// Replaces the alpha channel; the color channels are untouched. The
    /// pixel itself is returned again, for chaining.
    fn set_alpha(&mut self, a: T) -> (p: &Self)
        ensures
            *p == *final(self),
            final(self).spec_channels() == (
                old(self).spec_channels().0,
                old(self).spec_channels().1,
                old(self).spec_channels().2,
                a,
            ),
    ;

    /// Replaces the red channel; the other channels are untouched. The
    /// pixel itself is returned again, for chaining.
    fn set_r(&mut self, r: T) -> (p: &Self)
        ensures
            *p == *final(self),
            final(self).spec_channels() == (
                r,
                old(self).spec_channels().1,
                old(self).spec_channels().2,
                old(self).spec_channels().3,
            ),
    ;

    /// Replaces the green channel; the other channels are untouched. The
    /// pixel itself is returned again, for chaining.
    fn set_g(&mut self, g: T) -> (p: &Self)
        ensures
            *p == *final(self),
            final(self).spec_channels() == (
                old(self).spec_channels().0,
                g,
                old(self).spec_channels().2,
                old(self).spec_channels().3,
            ),
    ;

    /// Replaces the blue channel; the other channels are untouched. The
    /// pixel itself is returned again, for chaining.
    fn set_b(&mut self, b: T) -> (p: &Self)
        ensures
            *p == *final(self),
            final(self).spec_channels() == (
                old(self).spec_channels().0,
                old(self).spec_channels().1,
                b,
                old(self).spec_channels().3,
            ),
    ;

    /// Replaces the three color channels; alpha is untouched. The pixel
    /// itself is returned again, for chaining.
    fn set_rgb(&mut self, r: T, g: T, b: T) -> (p: &Self)
        ensures
            *p == *final(self),
            final(self).spec_channels() == (r, g, b, old(self).spec_channels().3),
    ;

    /// Replaces all four channels. The pixel itself is returned again, for
    /// chaining.
    fn set_rgba(&mut self, r: T, g: T, b: T, a: T) -> (p: &Self)
        ensures
            *p == *final(self),
            final(self).spec_channels() == (r, g, b, a),
    ;

    /// The four channel values as a tuple, in red, green, blue, alpha
    /// order.
    fn get_tuple(&self) -> (t: (T, T, T, T))
        ensures
            t == self.spec_channels(),
    ;

    /// The four channel values as a vector, in red, green, blue, alpha
    /// order.
    fn get_vector(&self) -> (v: Vec<T>)
        ensures
            v@ == channels_seq(self.spec_channels()),
    ;

    /// The four channel values as a fixed-size array, in red, green, blue,
    /// alpha order.
    fn get_slice(&self) -> (s: [T; 4])
        ensures
            s@ == channels_seq(self.spec_channels()),
    ;

    /// The hexadecimal rendering of the pixel: "0x", then each channel in
    /// uppercase hexadecimal, in red, green, blue, alpha order, with no
    /// fixed-width padding.
    fn to_hex(&self) -> (s: String)
        ensures
            s@ == rgba_hex(self.spec_channels()),
    ;

    /// The HSV conversion is not implemented: it fails on every pixel with
    /// the unimplemented-operation signal and never returns channel values.
    fn to_hsv(&self) -> (r: Result<(T, T, T), PixelError>)
        ensures
            r == Err::<(T, T, T), PixelError>(PixelError::Unimplemented),
    ;
}

impl<T: Channel> PixelMath<T> for Pixel<T> {
    open spec fn spec_channels(&self) -> (T, T, T, T) {
        (self.r, self.g, self.b, self.a)
    }

    fn default() -> (p: Self) {
        Self::new(T::zero(), T::zero(), T::zero())
    }

    fn new(r: T, g: T, b: T) -> (p: Self) {
        Self::new_rgba(r, g, b, T::max_value())
    }

    fn new_rgba(r: T, g: T, b: T, a: T) -> (p: Self) {
        Pixel { r, g, b, a }
    }

    fn set_alpha(&mut self, a: T) -> (p: &Self) {
        self.a = a;
        self
    }

    fn set_r(&mut self, r: T) -> (p: &Self) {
        self.r = r;
        self
    }

    fn set_g(&mut self, g: T) -> (p: &Self) {
        self.g = g;
        self
    }

    fn set_b(&mut self, b: T) -> (p: &Self) {
        self.b = b;
        self
    }

    fn set_rgb(&mut self, r: T, g: T, b: T) -> (p: &Self) {
        self.r = r;
        self.g = g;
        self.b = b;
        self
    }

    fn set_rgba(&mut self, r: T, g: T, b: T, a: T) -> (p: &Self) {
        self.set_rgb(r, g, b);
        self.a = a;
        self
    }

    fn get_tuple(&self) -> (t: (T, T, T, T)) {
        (self.r, self.g, self.b, self.a)
    }

    fn get_vector(&self) -> (v: Vec<T>) {
        let mut v: Vec<T> = Vec::new();
        v.push(self.r);
        v.push(self.g);
        v.push(self.b);
        v.push(self.a);
        proof {
            assert(v@ =~= channels_seq(self.spec_channels()));
        }
        v
    }

    fn get_slice(&self) -> (s: [T; 4]) {
        let s = [self.r, self.g, self.b, self.a];
        proof {
            assert(s@ =~= channels_seq(self.spec_channels()));
        }
        s
    }

    fn to_hex(&self) -> (s: String) {
        let mut s = String::new();
        s.push('0');
        s.push('x');
        push_hex(&mut s, self.r.to_u64());
        push_hex(&mut s, self.g.to_u64());
        push_hex(&mut s, self.b.to_u64());
        push_hex(&mut s, self.a.to_u64());
        proof {
            assert(s@ =~= rgba_hex(self.spec_channels()));
        }
        s
    }

    fn to_hsv(&self) -> (r: Result<(T, T, T), PixelError>) {
        Err(PixelError::Unimplemented)
    }
}

/// A cursor over the four channels of a borrowed pixel. It produces the
/// channel values in red, green, blue, alpha order, exactly once each, and
/// signals exhaustion on every request after the fourth. It is not
/// restartable: a fresh cursor must be made to walk the pixel again.
pub struct IntoPixel<'a, T: Channel> {
    px: &'a Pixel<T>,
    remaining: u8,
}

impl<'a, T: Channel> IntoPixel<'a, T> {
    /// The pixel under the cursor.
    pub closed spec fn spec_pixel(self) -> Pixel<T> {
        *self.px
    }

    /// How many channel values are still to be produced.
    pub closed spec fn spec_remaining(self) -> nat {
        self.remaining as nat
    }

    /// A cursor is well formed while it has at most four values left.
    pub open spec fn wf(self) -> bool {
        self.spec_remaining() <= 4
    }

    /// A fresh cursor over the given pixel, with all four channels still to
    /// come.
    pub fn new(px: &'a Pixel<T>) -> (it: Self)
        ensures
            it.spec_pixel() == *px,
            it.spec_remaining() == 4,
            it.wf(),
    {
        IntoPixel { px, remaining: 4 }
    }

    /// The next channel value in red, green, blue, alpha order, or nothing
    /// once all four have been produced; after that every further request
    /// returns nothing and leaves the cursor exhausted.
    pub fn next(&mut self) -> (r: Option<T>)
        requires
            old(self).wf(),
        ensures
            final(self).wf(),
            final(self).spec_pixel() == old(self).spec_pixel(),
            old(self).spec_remaining() == 0 ==> r is None && final(self).spec_remaining() == 0,
            old(self).spec_remaining() > 0 ==> {
                &&& final(self).spec_remaining() == old(self).spec_remaining() - 1
                &&& r == Some(
                    channels_seq(old(self).spec_pixel().spec_channels())[4 - old(
                        self,
                    ).spec_remaining()],
                )
            },
    {
        if self.remaining == 0 {
            None
        } else {
            self.remaining = self.remaining - 1;
            match self.remaining {
                3 => Some(self.px.r),
                2 => Some(self.px.g),
                1 => Some(self.px.b),
                _ => Some(self.px.a),
            }
        }
    }
}

/// After `set_rgba(r, g, b, a)` the tuple read back is exactly
/// `(r, g, b, a)`: `set_rgba` leaves the channels at those values, and
/// `get_tuple` returns the channels unchanged.
pub proof fn lemma_set_rgba_then_get_tuple<T: Channel, P: PixelMath<T>>(
    p: P,
    t: (T, T, T, T),
    r: T,
    g: T,
    b: T,
    a: T,
)
    requires
        p.spec_channels() == (r, g, b, a),
        t == p.spec_channels(),
    ensures
        t == (r, g, b, a),
{
}

/// The tuple, vector and slice extractions agree element for element and in
/// order: the sequence the vector and the slice are proved equal to holds
/// exactly the tuple's components, in red, green, blue, alpha order.
pub proof fn lemma_extractors_agree<T>(c: (T, T, T, T))
    ensures
        channels_seq(c).len() == 4,
        channels_seq(c)[0] == c.0,
        channels_seq(c)[1] == c.1,
        channels_seq(c)[2] == c.2,
        channels_seq(c)[3] == c.3,
{
}

} // verus!
