//! The camera, the canvas it fills, and the pixel-batch renderer.
use vstd::prelude::*;
use crate::fixed::{fdiv, fmul, fsub, sdiv, smul, ssub, ONE};
use crate::transform::{identity_transform, point_image, Transform};
use crate::tuples::{normalized, point_minus, Color, Point, Ray};
use crate::world::{color_of, World};

verus! {

/// Largest width or height, in pixels, of a camera's image.
pub const MAX_PIXELS: usize = 1_000_000;

/// A pinhole camera: image size, the tangent of half the field of view, and
/// a view transform, with the geometry derived from them.
#[derive(Clone, Copy, Debug, PartialEq, Eq, Structural)]
pub struct Camera {
    pub hsize: usize,
    pub vsize: usize,
    pub half_view: i64,
    pub transform: Transform,
    pub half_width: i64,
    pub half_height: i64,
    pub pixel_size: i64,
}

/// A grid of colors, row-major.
#[derive(Debug)]
pub struct Canvas {
    pub width: usize,
    pub height: usize,
    pub pixels: Vec<Color>,
}

/// Half width, half height and pixel size of an image of `hsize` by `vsize`
/// pixels whose wider side spans `2 * half_view` one unit from the eye.
pub open spec fn geometry(hsize: usize, vsize: usize, half_view: i64) -> (int, int, int) {
    let aspect = sdiv(hsize * ONE, vsize * ONE);
    let (hw, hh) = if aspect >= ONE {
        (half_view as int, sdiv(half_view as int, aspect))
    } else {
        (smul(half_view as int, aspect), half_view as int)
    };
    (hw, hh, sdiv(smul(hw, 2 * ONE), hsize * ONE))
}

/// The ray from the eye through the center of pixel `(px, py)`.
pub open spec fn pixel_ray(c: Camera, px: int, py: int) -> Ray {
    let xoffset = smul(px * ONE + ONE / 2, c.pixel_size as int);
    let yoffset = smul(py * ONE + ONE / 2, c.pixel_size as int);
    let world_x = ssub(c.half_width as int, xoffset);
    let world_y = ssub(c.half_height as int, yoffset);
    let pixel = point_image(c.transform.inverse, Point { x: world_x as i64, y: world_y as i64, z: -1_000_000_000i64 });
    let origin = point_image(c.transform.inverse, Point { x: 0, y: 0, z: 0 });
    Ray { origin, direction: normalized(point_minus(pixel, origin)) }
}

/// The color of the pixel at row-major index `i`.
#[verifier::opaque]
pub open spec fn pixel_color(c: Camera, w: World, i: int) -> Color {
    color_of(w, pixel_ray(c, i % c.hsize as int, i / c.hsize as int))
}

/// The whole image, row-major.
pub open spec fn rendered(c: Camera, w: World) -> Seq<Color> {
    Seq::new((c.hsize * c.vsize) as nat, |i: int| pixel_color(c, w, i))
}

pub open spec fn camera_fits(c: Camera) -> bool {
    c.hsize <= MAX_PIXELS && c.vsize <= MAX_PIXELS
}

/// One channel as a byte: scaled to 0..=255, rounded to nearest, clamped.
pub open spec fn channel_byte(c: i64) -> u8 {
    if c <= 0 {
        0
    } else {
        let v = (c * 255 + ONE / 2) / ONE as int;
        if v > 255 { 255 } else { v as u8 }
    }
}

fn channel_to_byte(c: i64) -> (b: u8)
    ensures
        b == channel_byte(c),
{
    if c <= 0 {
        0
    } else {
        let v: i128 = (c as i128 * 255 + (ONE / 2) as i128) / ONE as i128;
        if v > 255 { 255 } else { v as u8 }
    }
}

impl Canvas {
    /// The color at column `x`, row `y`.
    pub fn pixel_at(&self, x: usize, y: usize) -> (c: Color)
        requires
            x < self.width,
            y < self.height,
            self.pixels@.len() == self.width * self.height,
        ensures
            c == self.pixels@[y * self.width + x],
    {
        let n = self.pixels.len();
        proof {
            assert(0 <= y * self.width && y * self.width + x < self.width * self.height) by (nonlinear_arith)
                requires
                    x < self.width,
                    y < self.height,
            ;
        }
        self.pixels[y * self.width + x]
    }

    /// The pixels as a flat buffer of bytes, red, green, blue per pixel, rows
    /// top to bottom.
    pub fn to_rgb_bytes(&self) -> (out: Vec<u8>)
        requires
            self.pixels@.len() * 3 <= usize::MAX,
        ensures
            out@.len() == 3 * self.pixels@.len(),
            forall|i: int| 0 <= i < self.pixels@.len() ==> {
                &&& #[trigger] out@[3 * i] == channel_byte(self.pixels@[i].red)
                &&& out@[3 * i + 1] == channel_byte(self.pixels@[i].green)
                &&& out@[3 * i + 2] == channel_byte(self.pixels@[i].blue)
            },
    {
        let mut out: Vec<u8> = Vec::new();
        let mut i: usize = 0;
        while i < self.pixels.len()
            invariant
                i <= self.pixels@.len(),
                out@.len() == 3 * i,
                forall|q: int| 0 <= q < i ==> {
                    &&& #[trigger] out@[3 * q] == channel_byte(self.pixels@[q].red)
                    &&& out@[3 * q + 1] == channel_byte(self.pixels@[q].green)
                    &&& out@[3 * q + 2] == channel_byte(self.pixels@[q].blue)
                },
            decreases self.pixels@.len() - i,
        {
            let c = self.pixels[i];
            let ghost before = out@;
            out.push(channel_to_byte(c.red));
            out.push(channel_to_byte(c.green));
            out.push(channel_to_byte(c.blue));
            assert forall|q: int| 0 <= q < i + 1 implies {
                &&& #[trigger] out@[3 * q] == channel_byte(self.pixels@[q].red)
                &&& out@[3 * q + 1] == channel_byte(self.pixels@[q].green)
                &&& out@[3 * q + 2] == channel_byte(self.pixels@[q].blue)
            } by {
                if q < i {
                    assert(out@[3 * q] == before[3 * q]);
                    assert(out@[3 * q + 1] == before[3 * q + 1]);
                    assert(out@[3 * q + 2] == before[3 * q + 2]);
                }
            }
            i += 1;
        }
        out
    }
}

impl Camera {
    /// A camera at the origin looking down `-z`; `half_view` is the tangent of
    /// half the field of view.
    pub fn new(hsize: usize, vsize: usize, half_view: i64) -> (c: Camera)
        requires
            hsize <= MAX_PIXELS,
            vsize <= MAX_PIXELS,
        ensures
            c.hsize == hsize,
            c.vsize == vsize,
            c.half_view == half_view,
            c.transform == identity_transform(),
            (c.half_width as int, c.half_height as int, c.pixel_size as int) == geometry(hsize, vsize, half_view),
    {
        let h: i64 = hsize as i64 * ONE;
        let v: i64 = vsize as i64 * ONE;
        let aspect = fdiv(h, v);
        let (hw, hh) = if aspect >= ONE {
            (half_view, fdiv(half_view, aspect))
        } else {
            (fmul(half_view, aspect), half_view)
        };
        let pixel_size = fdiv(fmul(hw, 2 * ONE), h);
        Camera {
            hsize,
            vsize,
            half_view,
            transform: Transform::identity(),
            half_width: hw,
            half_height: hh,
            pixel_size,
        }
    }

    /// The ray from the eye through the center of pixel `(px, py)`.
    pub fn ray_for_pixel(&self, px: usize, py: usize) -> (r: Ray)
        requires
            px <= MAX_PIXELS,
            py <= MAX_PIXELS,
        ensures
            r == pixel_ray(*self, px as int, py as int),
    {
        let xoffset = fmul(px as i64 * ONE + ONE / 2, self.pixel_size);
        let yoffset = fmul(py as i64 * ONE + ONE / 2, self.pixel_size);
        let world_x = fsub(self.half_width, xoffset);
        let world_y = fsub(self.half_height, yoffset);
        let inv = &self.transform.inverse;
        let pixel = inv.apply_point(Point::new(world_x, world_y, -ONE));
        let origin = inv.apply_point(Point::new(0, 0, 0));
        Ray::new(origin, pixel.minus(origin).normalize())
    }

    /// The colors of the `len` pixels from row-major index `start` on.
    pub fn render_batch(&self, world: &World, start: usize, len: usize) -> (out: Vec<Color>)
        requires
            camera_fits(*self),
            world.light is Some,
            self.hsize > 0,
            start + len <= self.hsize * self.vsize,
            self.hsize * self.vsize <= usize::MAX,
        ensures
            out@.len() == len,
            forall|k: int| 0 <= k < len ==> #[trigger] out@[k] == pixel_color(*self, *world, start + k),
    {
        let mut out: Vec<Color> = Vec::new();
        let mut k: usize = 0;
        while k < len
            invariant
                k <= len,
                start + len <= self.hsize * self.vsize,
                self.hsize * self.vsize <= usize::MAX,
                self.hsize > 0,
                camera_fits(*self),
                world.light is Some,
                out@.len() == k,
                forall|q: int| 0 <= q < k ==> #[trigger] out@[q] == pixel_color(*self, *world, start + q),
            decreases len - k,
        {
            let i = start + k;
            let (px, py) = (i % self.hsize, i / self.hsize);
            proof {
                assert(py <= self.vsize) by (nonlinear_arith)
                    requires
                        i < self.hsize * self.vsize,
                        py == i / self.hsize,
                        self.hsize > 0,
                ;
            }
            let c = world.color_at(self.ray_for_pixel(px, py));
            proof {
                reveal(pixel_color);
            }
            out.push(c);
            k += 1;
        }
        out
    }

    /// Renders the image one pixel after another.
    pub fn render(&self, world: &World) -> (image: Canvas)
        requires
            camera_fits(*self),
            world.light is Some,
            self.hsize * self.vsize <= usize::MAX,
        ensures
            image.width == self.hsize,
            image.height == self.vsize,
            image.pixels@ == rendered(*self, *world),
    {
        let n = self.hsize * self.vsize;
        let pixels = if self.hsize == 0 { Vec::new() } else { self.render_batch(world, 0, n) };
        assert(pixels@ == rendered(*self, *world));
        Canvas { width: self.hsize, height: self.vsize, pixels }
    }

    /// Renders the image in contiguous batches of `batch_size` pixels, each
    /// computed on its own; the result does not depend on the batch size.
    pub fn render_parallel(&self, world: &World, batch_size: usize) -> (image: Canvas)
        requires
            camera_fits(*self),
            world.light is Some,
            self.hsize * self.vsize <= usize::MAX,
            batch_size > 0,
        ensures
            image.width == self.hsize,
            image.height == self.vsize,
            image.pixels@ == rendered(*self, *world),
    {
        let n = self.hsize * self.vsize;
        let mut pixels: Vec<Color> = Vec::new();
        let mut start: usize = 0;
        while start < n
            invariant
                start <= n,
                n == self.hsize * self.vsize,
                camera_fits(*self),
                world.light is Some,
                batch_size > 0,
                pixels@.len() == start,
                forall|q: int| 0 <= q < start ==> #[trigger] pixels@[q] == pixel_color(*self, *world, q),
            decreases n - start,
        {
            let len = if n - start < batch_size { n - start } else { batch_size };
            assert(self.hsize > 0) by (nonlinear_arith)
                requires
                    start < self.hsize * self.vsize,
            ;
            let mut batch = self.render_batch(world, start, len);
            let ghost fresh = batch@;
            pixels.append(&mut batch);
            assert forall|q: int| 0 <= q < start + len implies #[trigger] pixels@[q] == pixel_color(*self, *world, q) by {
                if q >= start {
                    assert(pixels@[q] == fresh[q - start]);
                }
            }
            start = start + len;
        }
        assert(pixels@ == rendered(*self, *world));
        Canvas { width: self.hsize, height: self.vsize, pixels }
    }
}

} // verus!
