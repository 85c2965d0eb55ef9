//! The camera: projection setup, per-sample ray generation, the recursive
//! radiance accumulation, and the render loop that emits pixels in raster
//! order.
//!
//! Every sample draws its randomness from a generator seeded with the
//! sample index alone, so the whole image is pinned by `spec_render`: a
//! pure function of the camera and the scene. Rendering twice gives the
//! same pixels, bit for bit.

use vstd::prelude::*;

use crate::fixed::{fx_add, fx_div, fx_mul, fx_sqrt, fx_sub, Fx, MAX_RAW};
use crate::interval::Interval;
use crate::random::{chacha8_word, spec_unit_disk, word_unit, SampleExhausted, SampleRng};
use crate::ray::Ray;
use crate::sphere::Sphere;
use crate::vec3::Vec3;
use crate::world::{spec_world_hit, World};

verus! {

/// The mantissa of the circle constant pi.
pub const PI_RAW: i64 = 205887;

/// An 8-bit-per-channel pixel.
#[derive(Clone, Copy, Debug, PartialEq, Eq, Structural)]
pub struct Rgb {
    pub r: u8,
    pub g: u8,
    pub b: u8,
}

/// Why a camera could not be built from a configuration.
#[derive(Clone, Copy, Debug, PartialEq, Eq, Structural)]
pub enum CameraError {
    /// The image width is zero.
    ImageWidthZero,
    /// The aspect ratio is not positive.
    AspectRatioNotPositive,
    /// The sample count is zero.
    SampleCountZero,
    /// The vertical field of view lies outside (0, 180) degrees.
    FieldOfViewOutOfRange,
    /// The defocus angle is negative.
    DefocusAngleNegative,
    /// The focus distance is not positive.
    FocusDistanceNotPositive,
    /// The position and the look-at target coincide.
    DegenerateView,
    /// The up vector is parallel to the view direction.
    DegenerateUp,
}

/// The tangent of half of `deg` degrees, by the crate's fixed-point
/// approximation: the angle is converted to radians and the sine and cosine
/// are evaluated as truncated alternating series; the cosine is floored at
/// one mantissa unit to keep the quotient defined toward ninety degrees.
pub open spec fn spec_tan_half_deg(deg: Fx) -> Fx {
    let x = fx_div(fx_mul(deg.raw as int, PI_RAW as int), 360 * 65536int);
    let x2 = fx_mul(x, x);
    let x3 = fx_mul(x, x2);
    let x5 = fx_mul(x3, x2);
    let x7 = fx_mul(x5, x2);
    let x4 = fx_mul(x2, x2);
    let x6 = fx_mul(x4, x2);
    let sin = fx_add(
        fx_sub(fx_sub(x, fx_div(x3, 6 * 65536int)), fx_div(x7, 5040 * 65536int)),
        fx_div(x5, 120 * 65536int),
    );
    let cos = fx_add(
        fx_sub(fx_sub(65536, fx_div(x2, 2 * 65536int)), fx_div(x6, 720 * 65536int)),
        fx_div(x4, 24 * 65536int),
    );
    let cos_floored = if cos < 1 {
        1
    } else {
        cos
    };
    Fx { raw: fx_div(sin, cos_floored) as i64 }
}

/// The tangent of half of `deg` degrees (fixed-point approximation).
pub fn tan_half_deg(deg: Fx) -> (r: Fx)
    ensures
        r == spec_tan_half_deg(deg),
{
    let x = deg.mul(Fx { raw: PI_RAW }).div(Fx { raw: 360 * 65536 });
    let x2 = x.mul(x);
    let x3 = x.mul(x2);
    let x5 = x3.mul(x2);
    let x7 = x5.mul(x2);
    let x4 = x2.mul(x2);
    let x6 = x4.mul(x2);
    let sin = x.sub(x3.div(Fx { raw: 6 * 65536 })).sub(x7.div(Fx { raw: 5040 * 65536 })).add(
        x5.div(Fx { raw: 120 * 65536 }),
    );
    let cos = Fx { raw: 65536 }.sub(x2.div(Fx { raw: 2 * 65536 })).sub(
        x6.div(Fx { raw: 720 * 65536 }),
    ).add(x4.div(Fx { raw: 24 * 65536 }));
    let cos_floored = if cos.raw < 1 {
        Fx { raw: 1 }
    } else {
        cos
    };
    sin.div(cos_floored)
}

/// Derived, immutable-after-construction projection state. Built once per
/// render by `CameraBuilder::build`.
#[derive(Clone, Copy, Debug, PartialEq, Eq, Structural)]
pub struct Camera {
    pub image_width: u32,
    pub image_height: u32,
    pub center: Vec3,
    pub pixel_delta_u: Vec3,
    pub pixel_delta_v: Vec3,
    pub pixel00_loc: Vec3,
    pub samples_per_pixel: u32,
    pub max_depth: u32,
    pub defocus_angle: Fx,
    pub defocus_disk_u: Vec3,
    pub defocus_disk_v: Vec3,
}

/// The active ray-parameter window for intersection tests: just above zero
/// (to reject self-intersection at the origin) up to the saturation bound,
/// which stands in for infinity.
pub open spec fn spec_scan_interval() -> Interval {
    Interval { min: Fx { raw: 65i64 }, max: Fx { raw: MAX_RAW } }
}

/// The background gradient for a ray that hits nothing: a linear blend
/// between white at the horizon and sky blue at the zenith, keyed by the
/// direction's vertical component.
pub open spec fn spec_background(ray: Ray) -> Vec3 {
    let a = Fx { raw: fx_mul(32768, fx_add(ray.direction.y.raw as int, 65536)) as i64 };
    let white = Vec3 { x: Fx { raw: 65536i64 }, y: Fx { raw: 65536i64 }, z: Fx { raw: 65536i64 } };
    let blue = Vec3 { x: Fx { raw: 32768i64 }, y: Fx { raw: 45875i64 }, z: Fx { raw: 65536i64 } };
    white.spec_scale(Fx { raw: fx_sub(65536, a.raw as int) as i64 }).spec_add(blue.spec_scale(a))
}

/// The background gradient for a ray that hits nothing.
pub fn background(ray: &Ray) -> (c: Vec3)
    ensures
        c == spec_background(*ray),
{
    let one = Fx { raw: 65536i64 };
    let a = Fx { raw: 32768i64 }.mul(ray.direction.y.add(one));
    let white = Vec3 { x: one, y: one, z: one };
    let blue = Vec3 { x: Fx { raw: 32768i64 }, y: Fx { raw: 45875i64 }, z: one };
    white.scale(one.sub(a)).add(blue.scale(a))
}

/// What the radiance recursion returns for the stream at `(seed, k)`:
/// black when the depth is exhausted; the background gradient on a miss;
/// on a hit, the scattered recursion filtered by the attenuation, or black
/// when the material absorbs the ray.
pub open spec fn spec_ray_color(items: Seq<Sphere>, ray: Ray, depth: u32, seed: u64, k: int) -> (
    Result<Vec3, SampleExhausted>,
    int,
)
    decreases depth,
{
    if depth == 0 {
        (Ok(Vec3::spec_zero()), k)
    } else {
        match spec_world_hit(items, ray, spec_scan_interval()) {
            Some(hit_record) => {
                let (scat, k2) = hit_record.material.spec_scatter(ray, hit_record, seed, k);
                match scat {
                    Err(e) => (Err(e), k2),
                    Ok(Some((scattered, attenuation))) => {
                        let (c, k3) = spec_ray_color(items, scattered, (depth - 1) as u32, seed, k2);
                        match c {
                            Err(e) => (Err(e), k3),
                            Ok(color) => (Ok(attenuation.spec_component_mul(color)), k3),
                        }
                    },
                    Ok(None) => (Ok(Vec3::spec_zero()), k2),
                }
            },
            None => (Ok(spec_background(ray)), k),
        }
    }
}

/// With the depth exhausted the radiance recursion returns exactly black,
/// whatever the scene holds, and draws nothing from the stream.
pub proof fn lemma_ray_color_depth_zero(items: Seq<Sphere>, ray: Ray, seed: u64, k: int)
    ensures
        spec_ray_color(items, ray, 0, seed, k) == (
            Ok::<Vec3, SampleExhausted>(Vec3::spec_zero()),
            k,
        ),
{
}

/// Accumulate radiance along `ray` through `world`, recursing on scattered
/// rays until the depth is exhausted, the ray escapes to the background, or
/// a material absorbs it. At depth zero the result is exactly black.
/// `Err` surfaces rejection-sampling exhaustion from a scatter.
pub fn ray_color(ray: &Ray, world: &World, depth: u32, rng: &mut SampleRng) -> (c: Result<
    Vec3,
    SampleExhausted,
>)
    ensures
        final(rng).seed() == old(rng).seed(),
        (c, final(rng).drawn()) == spec_ray_color(
            world@,
            *ray,
            depth,
            old(rng).seed(),
            old(rng).drawn(),
        ),
        depth == 0 ==> c == Ok::<Vec3, SampleExhausted>(Vec3::spec_zero()),
    decreases depth,
{
    if depth == 0 {
        Ok(Vec3::zero())
    } else {
        let interval = Interval::new(Fx { raw: 65i64 }, Fx { raw: MAX_RAW });
        match world.hit(ray, &interval) {
            Some(hit_record) => {
                match hit_record.material.scatter(ray, &hit_record, rng) {
                    Err(e) => Err(e),
                    Ok(Some((scattered, attenuation))) => {
                        match ray_color(&scattered, world, depth - 1, rng) {
                            Err(e) => Err(e),
                            Ok(color) => Ok(attenuation.component_mul(color)),
                        }
                    },
                    Ok(None) => Ok(Vec3::zero()),
                }
            },
            None => Ok(background(ray)),
        }
    }
}

/// Display-ready intensity: the square root of a positive linear intensity
/// (gamma two), zero otherwise.
pub open spec fn spec_linear_to_gamma(c: Fx) -> Fx {
    if c.raw > 0 {
        Fx { raw: fx_sqrt(c.raw as int) as i64 }
    } else {
        Fx { raw: 0i64 }
    }
}

/// One color channel quantized: gamma correction, a clamp to `[0, 0.999]`
/// (the ceiling 0.999 truncates to the mantissa 65470), and truncation to
/// eight bits.
pub open spec fn spec_channel(c: Fx) -> int {
    let g = spec_linear_to_gamma(c);
    let clamped = if g.raw < 0 {
        0int
    } else if g.raw > 65470 {
        65470int
    } else {
        g.raw as int
    };
    256 * clamped / 65536
}

/// A color tone-mapped to an 8-bit pixel.
pub open spec fn spec_write_color(color: Vec3) -> Rgb {
    Rgb {
        r: spec_channel(color.x) as u8,
        g: spec_channel(color.y) as u8,
        b: spec_channel(color.z) as u8,
    }
}

/// What generating the ray for pixel `(i, j)` returns for the stream at
/// `(seed, k)`: a ray from the camera center (or, with a positive defocus
/// angle, from a point on the defocus disk) toward a point jittered
/// uniformly within the pixel's footprint.
pub open spec fn spec_get_ray(cam: Camera, seed: u64, k: int, i: u32, j: u32) -> (
    Result<Ray, SampleExhausted>,
    int,
) {
    let off_x = Fx { raw: (word_unit(chacha8_word(seed, k)) - 32768) as i64 };
    let off_y = Fx { raw: (word_unit(chacha8_word(seed, k + 1)) - 32768) as i64 };
    let sx = Fx { raw: fx_add(i as int * 65536, off_x.raw as int) as i64 };
    let sy = Fx { raw: fx_add(j as int * 65536, off_y.raw as int) as i64 };
    let pixel_sample = cam.pixel00_loc.spec_add(cam.pixel_delta_u.spec_scale(sx)).spec_add(
        cam.pixel_delta_v.spec_scale(sy),
    );
    if cam.defocus_angle.raw <= 0 {
        (Ok(Ray { origin: cam.center, direction: pixel_sample.spec_sub(cam.center) }), k + 2)
    } else {
        let (disk, k3) = spec_unit_disk(seed, k + 2);
        match disk {
            None => (Err(SampleExhausted), k3),
            Some(p) => {
                let origin = cam.center.spec_add(cam.defocus_disk_u.spec_scale(p.x)).spec_add(
                    cam.defocus_disk_v.spec_scale(p.y),
                );
                (Ok(Ray { origin, direction: pixel_sample.spec_sub(origin) }), k3)
            },
        }
    }
}

/// The color gathered by sample `n` of pixel `(i, j)`: a fresh generator is
/// seeded with the sample index, a jittered ray is generated, and the
/// radiance recursion is run to the camera's depth bound.
pub open spec fn spec_sample_color(cam: Camera, items: Seq<Sphere>, i: u32, j: u32, n: u32) -> Result<
    Vec3,
    SampleExhausted,
> {
    let (ray, k) = spec_get_ray(cam, n as u64, 0, i, j);
    match ray {
        Err(e) => Err(e),
        Ok(r) => spec_ray_color(items, r, cam.max_depth, n as u64, k).0,
    }
}

/// The sum of the colors of the first `n` samples of pixel `(i, j)`,
/// accumulated in sample order.
pub open spec fn spec_sample_sum(cam: Camera, items: Seq<Sphere>, i: u32, j: u32, n: u32) -> Result<
    Vec3,
    SampleExhausted,
>
    decreases n,
{
    if n == 0 {
        Ok(Vec3::spec_zero())
    } else {
        match spec_sample_sum(cam, items, i, j, (n - 1) as u32) {
            Err(e) => Err(e),
            Ok(s) => match spec_sample_color(cam, items, i, j, (n - 1) as u32) {
                Err(e) => Err(e),
                Ok(c) => Ok(s.spec_add(c)),
            },
        }
    }
}

/// Once a sample errs, every longer sample sum carries the same error.
proof fn lemma_sample_sum_err(cam: Camera, items: Seq<Sphere>, i: u32, j: u32, m: u32, q: u32)
    requires
        m <= q,
        spec_sample_sum(cam, items, i, j, m) is Err,
    ensures
        spec_sample_sum(cam, items, i, j, q) == spec_sample_sum(cam, items, i, j, m),
    decreases q,
{
    if m < q {
        lemma_sample_sum_err(cam, items, i, j, m, (q - 1) as u32);
    }
}

/// The finished pixel `(i, j)`: the per-sample sum averaged over the sample
/// count and tone-mapped to eight bits.
pub open spec fn spec_pixel(cam: Camera, items: Seq<Sphere>, i: u32, j: u32) -> Result<
    Rgb,
    SampleExhausted,
> {
    match spec_sample_sum(cam, items, i, j, cam.samples_per_pixel) {
        Err(e) => Err(e),
        Ok(sum) => Ok(
            spec_write_color(
                sum.spec_div_scalar(Fx { raw: (cam.samples_per_pixel as int * 65536) as i64 }),
            ),
        ),
    }
}

/// The first `p` pixels of the image in raster order (row-major, top to
/// bottom, left to right), or the first error met along the way.
pub open spec fn spec_render_upto(cam: Camera, items: Seq<Sphere>, p: nat) -> Result<
    Seq<Rgb>,
    SampleExhausted,
>
    decreases p,
{
    if p == 0 {
        Ok(Seq::<Rgb>::empty())
    } else {
        match spec_render_upto(cam, items, (p - 1) as nat) {
            Err(e) => Err(e),
            Ok(s) => match spec_pixel(
                cam,
                items,
                ((p - 1) % cam.image_width as int) as u32,
                ((p - 1) / cam.image_width as int) as u32,
            ) {
                Err(e) => Err(e),
                Ok(rgb) => Ok(s.push(rgb)),
            },
        }
    }
}

/// The whole image, in raster order: a pure function of the camera and the
/// scene alone, so rendering is reproducible bit for bit; or the first
/// sampling-exhaustion error in raster order.
pub open spec fn spec_render(cam: Camera, items: Seq<Sphere>) -> Result<Seq<Rgb>, SampleExhausted> {
    spec_render_upto(cam, items, (cam.image_height as nat) * (cam.image_width as nat))
}

/// Once a pixel errs, every longer prefix carries the same error.
proof fn lemma_render_upto_err(cam: Camera, items: Seq<Sphere>, m: nat, q: nat)
    requires
        m <= q,
        spec_render_upto(cam, items, m) is Err,
    ensures
        spec_render_upto(cam, items, q) == spec_render_upto(cam, items, m),
    decreases q,
{
    if m < q {
        lemma_render_upto_err(cam, items, m, (q - 1) as nat);
    }
}

impl Camera {
    /// The jitter offsets within a pixel footprint, each in `[-1/2, 1/2)`,
    /// from two fresh stream words (the third component is zero).
    fn sample_square(rng: &mut SampleRng) -> (off: Vec3)
        ensures
            final(rng).seed() == old(rng).seed(),
            final(rng).drawn() == old(rng).drawn() + 2,
            off.x.raw == word_unit(chacha8_word(old(rng).seed(), old(rng).drawn())) - 32768,
            off.y.raw == word_unit(chacha8_word(old(rng).seed(), old(rng).drawn() + 1)) - 32768,
            off.z.raw == 0,
    {
        let wx = rng.next_word();
        let wy = rng.next_word();
        Vec3 {
            x: Fx { raw: (wx / 65536u32) as i64 - 32768 },
            y: Fx { raw: (wy / 65536u32) as i64 - 32768 },
            z: Fx { raw: 0 },
        }
    }

    /// A point on the defocus disk: the camera center displaced along the
    /// disk basis by the coordinates of a unit-disk sample. `Err` surfaces
    /// rejection exhaustion.
    fn defocus_disk_sample(&self, rng: &mut SampleRng) -> (r: Result<Vec3, SampleExhausted>)
        ensures
            final(rng).seed() == old(rng).seed(),
            ({
                let (disk, k2) = spec_unit_disk(old(rng).seed(), old(rng).drawn());
                &&& final(rng).drawn() == k2
                &&& r == match disk {
                    None => Err::<Vec3, SampleExhausted>(SampleExhausted),
                    Some(p) => Ok(
                        self.center.spec_add(self.defocus_disk_u.spec_scale(p.x)).spec_add(
                            self.defocus_disk_v.spec_scale(p.y),
                        ),
                    ),
                }
            }),
    {
        match crate::random::random_vector_in_unit_disk(rng) {
            None => Err(SampleExhausted),
            Some(p) => Ok(
                self.center.add(self.defocus_disk_u.scale(p.x)).add(
                    self.defocus_disk_v.scale(p.y),
                ),
            ),
        }
    }

    /// The ray for one sample of pixel `(i, j)`: jittered within the pixel
    /// footprint, from the camera center or a defocus-disk point. `Err`
    /// surfaces rejection exhaustion in the lens sampling.
    pub fn get_ray(&self, rng: &mut SampleRng, i: u32, j: u32) -> (r: Result<Ray, SampleExhausted>)
        ensures
            final(rng).seed() == old(rng).seed(),
            (r, final(rng).drawn()) == spec_get_ray(
                *self,
                old(rng).seed(),
                old(rng).drawn(),
                i,
                j,
            ),
    {
        let offset = Camera::sample_square(rng);
        let pixel_sample = self.pixel00_loc.add(
            self.pixel_delta_u.scale(Fx::from_u32(i).add(offset.x)),
        ).add(self.pixel_delta_v.scale(Fx::from_u32(j).add(offset.y)));
        let ray_origin = if self.defocus_angle.raw <= 0 {
            self.center
        } else {
            match self.defocus_disk_sample(rng) {
                Err(e) => {
                    return Err(e);
                },
                Ok(origin) => origin,
            }
        };
        let ray_direction = pixel_sample.sub(ray_origin);
        Ok(Ray::new(ray_origin, ray_direction))
    }

    /// The finished pixel `(i, j)`: `samples_per_pixel` independent rays,
    /// each with its own generator seeded from the sample index, averaged
    /// and tone-mapped. `Err` surfaces rejection exhaustion in any sample.
    #[verifier::loop_isolation(false)]
    pub fn render_pixel(&self, world: &World, i: u32, j: u32) -> (rgb: Result<Rgb, SampleExhausted>)
        ensures
            rgb == spec_pixel(*self, world@, i, j),
    {
        let mut sum = Vec3::zero();
        let mut n: u32 = 0;
        while n < self.samples_per_pixel
            invariant
                n <= self.samples_per_pixel,
                spec_sample_sum(*self, world@, i, j, n) == Ok::<Vec3, SampleExhausted>(sum),
            decreases self.samples_per_pixel - n,
        {
            let mut rng = SampleRng::new(n as u64);
            let sample = match self.get_ray(&mut rng, i, j) {
                Err(e) => Err(e),
                Ok(ray) => ray_color(&ray, world, self.max_depth, &mut rng),
            };
            match sample {
                Err(e) => {
                    proof {
                        lemma_sample_sum_err(
                            *self,
                            world@,
                            i,
                            j,
                            (n + 1) as u32,
                            self.samples_per_pixel,
                        );
                    }
                    return Err(e);
                },
                Ok(c) => {
                    sum = sum.add(c);
                },
            }
            n = n + 1;
        }
        let average = sum.div_scalar(Fx::from_u32(self.samples_per_pixel));
        Ok(Camera::write_color(average))
    }

    /// Render the scene: every pixel in raster order (row-major, top to
    /// bottom, left to right), exactly `spec_render` of the camera and the
    /// scene — the same pixels on every run. The first sampling-exhaustion
    /// error in raster order, if any, is surfaced instead of an image.
    #[verifier::loop_isolation(false)]
    pub fn render(&self, world: &World) -> (r: Result<Vec<Rgb>, SampleExhausted>)
        requires
            self.image_height as int * self.image_width as int <= usize::MAX as int,
        ensures
            ({
                let s = spec_render(*self, world@);
                match r {
                    Ok(pixels) => s == Ok::<Seq<Rgb>, SampleExhausted>(pixels@),
                    Err(e) => s == Err::<Seq<Rgb>, SampleExhausted>(e),
                }
            }),
    {
        let mut pixels: Vec<Rgb> = Vec::new();
        let h = self.image_height;
        let w = self.image_width;
        let ghost total = (h as nat) * (w as nat);
        let mut j: u32 = 0;
        while j < h
            invariant
                j <= h,
                pixels@.len() == j as int * w as int,
                j as int * w as int <= h as int * w as int,
                spec_render_upto(*self, world@, pixels@.len()) == Ok::<Seq<Rgb>, SampleExhausted>(
                    pixels@,
                ),
            decreases h - j,
        {
            let mut i: u32 = 0;
            proof {
                vstd::arithmetic::mul::lemma_mul_inequality(j as int + 1, h as int, w as int);
                vstd::arithmetic::mul::lemma_mul_is_distributive_add_other_way(
                    w as int,
                    j as int,
                    1,
                );
            }
            while i < w
                invariant
                    i <= w,
                    j < h,
                    pixels@.len() == j as int * w as int + i as int,
                    (j as int + 1) * w as int <= h as int * w as int,
                    (j as int + 1) * w as int == j as int * w as int + w as int,
                    spec_render_upto(*self, world@, pixels@.len()) == Ok::<
                        Seq<Rgb>,
                        SampleExhausted,
                    >(pixels@),
                decreases w - i,
            {
                proof {
                    let p = j as int * w as int + i as int;
                    vstd::arithmetic::div_mod::lemma_fundamental_div_mod_converse_div(
                        p,
                        w as int,
                        j as int,
                        i as int,
                    );
                    vstd::arithmetic::div_mod::lemma_fundamental_div_mod_converse_mod(
                        p,
                        w as int,
                        j as int,
                        i as int,
                    );
                }
                match self.render_pixel(world, i, j) {
                    Err(e) => {
                        proof {
                            lemma_render_upto_err(
                                *self,
                                world@,
                                pixels@.len() + 1,
                                total,
                            );
                        }
                        return Err(e);
                    },
                    Ok(rgb) => {
                        pixels.push(rgb);
                    },
                }
                i = i + 1;
            }
            j = j + 1;
        }
        Ok(pixels)
    }

    /// Display-ready intensity for one channel (gamma two).
    pub fn linear_to_gamma(linear_component: Fx) -> (r: Fx)
        ensures
            r == spec_linear_to_gamma(linear_component),
    {
        if linear_component.raw > 0 {
            linear_component.sqrt()
        } else {
            Fx { raw: 0 }
        }
    }

    /// Tone-map a color to an 8-bit pixel: gamma correction, an intensity
    /// clamp to `[0, 0.999]` (mantissa ceiling 65470), and quantization to
    /// `[0, 255]`.
    pub fn write_color(color: Vec3) -> (rgb: Rgb)
        ensures
            rgb == spec_write_color(color),
    {
        let intensity = Interval::new(Fx { raw: 0i64 }, Fx { raw: 65470i64 });
        let cr = intensity.clamp(Camera::linear_to_gamma(color.x));
        let cg = intensity.clamp(Camera::linear_to_gamma(color.y));
        let cb = intensity.clamp(Camera::linear_to_gamma(color.z));
        Rgb {
            r: (256 * cr.raw / 65536) as u8,
            g: (256 * cg.raw / 65536) as u8,
            b: (256 * cb.raw / 65536) as u8,
        }
    }
}

} // verus!
