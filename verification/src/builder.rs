//! Camera configuration: an immutable builder with defaulted fields,
//! validated once when the camera is built.

use vstd::prelude::*;

use crate::camera::{spec_tan_half_deg, tan_half_deg, Camera, CameraError};
use crate::fixed::{fx_div, fx_mul, fx_to_u32_floor, Fx};
use crate::vec3::Vec3;

verus! {

/// Camera configuration with defaults: a sixteen-by-nine aspect ratio,
/// four hundred pixels of width, one hundred samples per pixel, a depth
/// bound of twenty-five bounces, a ninety-degree vertical field of view,
/// the world up vector, a pinhole aperture and a focus distance of ten.
#[derive(Clone, Copy, Debug, PartialEq, Eq, Structural)]
pub struct CameraBuilder {
    pub aspect_ratio: Fx,
    pub image_width: u32,
    pub samples_per_pixel: u32,
    pub max_depth: u32,
    pub vfov: Fx,
    pub vup: Vec3,
    pub defocus_angle: Fx,
    pub focus_dist: Fx,
}

impl CameraBuilder {
    /// A configuration holding every default.
    pub fn new() -> (r: CameraBuilder)
        ensures
            r.aspect_ratio.raw == 116508,
            r.image_width == 400,
            r.samples_per_pixel == 100,
            r.max_depth == 25,
            r.vfov.raw == 90 * 65536,
            r.vup == (Vec3 { x: Fx { raw: 0i64 }, y: Fx { raw: 65536i64 }, z: Fx { raw: 0i64 } }),
            r.defocus_angle.raw == 0,
            r.focus_dist.raw == 10 * 65536,
    {
        CameraBuilder {
            aspect_ratio: Fx { raw: 116508 },
            image_width: 400,
            samples_per_pixel: 100,
            max_depth: 25,
            vfov: Fx { raw: 90 * 65536 },
            vup: Vec3 { x: Fx { raw: 0 }, y: Fx { raw: 65536 }, z: Fx { raw: 0 } },
            defocus_angle: Fx { raw: 0 },
            focus_dist: Fx { raw: 10 * 65536 },
        }
    }

    /// The configuration with its aspect ratio replaced.
    pub fn aspect_ratio(self, aspect_ratio: Fx) -> (r: CameraBuilder)
        ensures
            r == (CameraBuilder { aspect_ratio, ..self }),
    {
        CameraBuilder { aspect_ratio, ..self }
    }

    /// The configuration with its image width replaced.
    pub fn image_width(self, image_width: u32) -> (r: CameraBuilder)
        ensures
            r == (CameraBuilder { image_width, ..self }),
    {
        CameraBuilder { image_width, ..self }
    }

    /// The configuration with its sample count replaced.
    pub fn samples_per_pixel(self, samples_per_pixel: u32) -> (r: CameraBuilder)
        ensures
            r == (CameraBuilder { samples_per_pixel, ..self }),
    {
        CameraBuilder { samples_per_pixel, ..self }
    }

    /// The configuration with its recursion depth bound replaced.
    pub fn max_depth(self, max_depth: u32) -> (r: CameraBuilder)
        ensures
            r == (CameraBuilder { max_depth, ..self }),
    {
        CameraBuilder { max_depth, ..self }
    }

    /// The configuration with its vertical field of view (degrees) replaced.
    pub fn vfov(self, vfov: Fx) -> (r: CameraBuilder)
        ensures
            r == (CameraBuilder { vfov, ..self }),
    {
        CameraBuilder { vfov, ..self }
    }

    /// The configuration with its defocus (aperture) angle replaced.
    pub fn defocus_angle(self, defocus_angle: Fx) -> (r: CameraBuilder)
        ensures
            r == (CameraBuilder { defocus_angle, ..self }),
    {
        CameraBuilder { defocus_angle, ..self }
    }

    /// The configuration with its focus distance replaced.
    pub fn focus_dist(self, focus_dist: Fx) -> (r: CameraBuilder)
        ensures
            r == (CameraBuilder { focus_dist, ..self }),
    {
        CameraBuilder { focus_dist, ..self }
    }

    /// The image height derived from the width and the aspect ratio,
    /// floored and kept at least one pixel.
    pub open spec fn spec_image_height(self) -> u32 {
        let floored = fx_to_u32_floor(
            fx_div(self.image_width as int * 65536, self.aspect_ratio.raw as int),
        );
        if floored == 0 {
            1u32
        } else {
            floored as u32
        }
    }

    /// The camera a valid configuration builds: the viewport is sized by
    /// the field of view at the focus distance; the camera frame `(u, v, w)`
    /// comes from the view direction and the up vector; the pixel grid and
    /// the defocus-disk basis are laid out on the viewport.
    pub open spec fn spec_build(self, lookfrom: Vec3, lookat: Vec3) -> Camera {
        let image_height = self.spec_image_height();
        let center = lookfrom;
        let h = spec_tan_half_deg(self.vfov);
        let viewport_height = Fx {
            raw: fx_mul(fx_mul(131072, h.raw as int), self.focus_dist.raw as int) as i64,
        };
        let viewport_width = Fx {
            raw: fx_mul(
                viewport_height.raw as int,
                fx_div(self.image_width as int * 65536, image_height as int * 65536),
            ) as i64,
        };
        let w = lookfrom.spec_sub(lookat).spec_normalize();
        let u = self.vup.spec_cross(w).spec_normalize();
        let v = w.spec_cross(u);
        let viewport_u = u.spec_scale(viewport_width);
        let viewport_v = v.spec_neg().spec_scale(viewport_height);
        let pixel_delta_u = viewport_u.spec_div_scalar(Fx { raw: (self.image_width as int * 65536) as i64 });
        let pixel_delta_v = viewport_v.spec_div_scalar(Fx { raw: (image_height as int * 65536) as i64 });
        let two = Fx { raw: 131072i64 };
        let viewport_upper_left = center.spec_sub(w.spec_scale(self.focus_dist)).spec_sub(
            viewport_u.spec_div_scalar(two),
        ).spec_sub(viewport_v.spec_div_scalar(two));
        let pixel00_loc = viewport_upper_left.spec_add(
            pixel_delta_u.spec_add(pixel_delta_v).spec_scale(Fx { raw: 32768i64 }),
        );
        let defocus_radius = Fx {
            raw: fx_mul(
                self.focus_dist.raw as int,
                spec_tan_half_deg(self.defocus_angle).raw as int,
            ) as i64,
        };
        Camera {
            image_width: self.image_width,
            image_height,
            center,
            pixel_delta_u,
            pixel_delta_v,
            pixel00_loc,
            samples_per_pixel: self.samples_per_pixel,
            max_depth: self.max_depth,
            defocus_angle: self.defocus_angle,
            defocus_disk_u: u.spec_scale(defocus_radius),
            defocus_disk_v: v.spec_scale(defocus_radius),
        }
    }

    /// What building returns: the first configuration fault as an error, in
    /// a fixed checking order, else the derived camera.
    pub open spec fn spec_build_result(self, lookfrom: Vec3, lookat: Vec3) -> Result<
        Camera,
        CameraError,
    > {
        if self.image_width == 0 {
            Err(CameraError::ImageWidthZero)
        } else if self.aspect_ratio.raw <= 0 {
            Err(CameraError::AspectRatioNotPositive)
        } else if self.samples_per_pixel == 0 {
            Err(CameraError::SampleCountZero)
        } else if self.vfov.raw <= 0 || self.vfov.raw >= 180 * 65536 {
            Err(CameraError::FieldOfViewOutOfRange)
        } else if self.defocus_angle.raw < 0 {
            Err(CameraError::DefocusAngleNegative)
        } else if self.focus_dist.raw <= 0 {
            Err(CameraError::FocusDistanceNotPositive)
        } else if lookfrom.spec_sub(lookat) == Vec3::spec_zero() {
            Err(CameraError::DegenerateView)
        } else if self.vup.spec_cross(lookfrom.spec_sub(lookat).spec_normalize())
            == Vec3::spec_zero() {
            Err(CameraError::DegenerateUp)
        } else {
            Ok(self.spec_build(lookfrom, lookat))
        }
    }

    /// Build the camera, validating the configuration first. Every fault is
    /// reported before rendering begins: `Err` exactly when the width is
    /// zero, the aspect ratio is not positive, the sample count is zero,
    /// the field of view lies outside (0, 180) degrees, the defocus angle
    /// is negative, the focus distance is not positive, the position and
    /// target coincide, or the up vector is parallel to the view direction.
    pub fn build(self, lookfrom: Vec3, lookat: Vec3) -> (r: Result<Camera, CameraError>)
        ensures
            r == self.spec_build_result(lookfrom, lookat),
            r is Ok <==> !(self.image_width == 0 || self.aspect_ratio.raw <= 0
                || self.samples_per_pixel == 0 || self.vfov.raw <= 0 || self.vfov.raw >= 180
                * 65536 || self.defocus_angle.raw < 0 || self.focus_dist.raw <= 0
                || lookfrom.spec_sub(lookat) == Vec3::spec_zero() || self.vup.spec_cross(
                lookfrom.spec_sub(lookat).spec_normalize(),
            ) == Vec3::spec_zero()),
    {
        if self.image_width == 0 {
            return Err(CameraError::ImageWidthZero);
        }
        if self.aspect_ratio.raw <= 0 {
            return Err(CameraError::AspectRatioNotPositive);
        }
        if self.samples_per_pixel == 0 {
            return Err(CameraError::SampleCountZero);
        }
        if self.vfov.raw <= 0 || self.vfov.raw >= 180 * 65536 {
            return Err(CameraError::FieldOfViewOutOfRange);
        }
        if self.defocus_angle.raw < 0 {
            return Err(CameraError::DefocusAngleNegative);
        }
        if self.focus_dist.raw <= 0 {
            return Err(CameraError::FocusDistanceNotPositive);
        }
        let view = lookfrom.sub(lookat);
        let zero = Vec3::zero();
        if view == zero {
            return Err(CameraError::DegenerateView);
        }
        let w = view.normalize();
        let crossed = self.vup.cross(w);
        if crossed == zero {
            return Err(CameraError::DegenerateUp);
        }

        let image_height_floored = Fx::from_u32(self.image_width).div(
            self.aspect_ratio,
        ).to_u32_floor();
        let image_height = if image_height_floored == 0 {
            1u32
        } else {
            image_height_floored
        };
        let center = lookfrom;

        let h = tan_half_deg(self.vfov);
        let two = Fx { raw: 131072 };
        let viewport_height = two.mul(h).mul(self.focus_dist);
        let viewport_width = viewport_height.mul(
            Fx::from_u32(self.image_width).div(Fx::from_u32(image_height)),
        );

        let u = crossed.normalize();
        let v = w.cross(u);

        let viewport_u = u.scale(viewport_width);
        let viewport_v = v.neg().scale(viewport_height);

        let pixel_delta_u = viewport_u.div_scalar(Fx::from_u32(self.image_width));
        let pixel_delta_v = viewport_v.div_scalar(Fx::from_u32(image_height));

        let viewport_upper_left = center.sub(w.scale(self.focus_dist)).sub(
            viewport_u.div_scalar(two),
        ).sub(viewport_v.div_scalar(two));
        let pixel00_loc = viewport_upper_left.add(
            pixel_delta_u.add(pixel_delta_v).scale(Fx { raw: 32768 }),
        );

        let defocus_radius = self.focus_dist.mul(tan_half_deg(self.defocus_angle));

        Ok(
            Camera {
                image_width: self.image_width,
                image_height,
                center,
                pixel_delta_u,
                pixel_delta_v,
                pixel00_loc,
                samples_per_pixel: self.samples_per_pixel,
                max_depth: self.max_depth,
                defocus_angle: self.defocus_angle,
                defocus_disk_u: u.scale(defocus_radius),
                defocus_disk_v: v.scale(defocus_radius),
            },
        )
    }
}

} // verus!
