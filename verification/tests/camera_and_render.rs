use raytracer::builder::CameraBuilder;
use raytracer::camera::{ray_color, Camera, CameraError, Rgb};
use raytracer::fixed::{Fx, SCALE};
use raytracer::material::Material;
use raytracer::random::SampleRng;
use raytracer::ray::Ray;
use raytracer::sphere::Sphere;
use raytracer::vec3::Vec3;
use raytracer::world::World;

fn fx(raw: i64) -> Fx {
    Fx { raw }
}

fn v3(x: i64, y: i64, z: i64) -> Vec3 {
    Vec3 { x: fx(x * SCALE), y: fx(y * SCALE), z: fx(z * SCALE) }
}

fn pinhole(width: u32, aspect_raw: i64, samples: u32, depth: u32) -> Camera {
    CameraBuilder::new()
        .image_width(width)
        .aspect_ratio(fx(aspect_raw))
        .samples_per_pixel(samples)
        .max_depth(depth)
        .focus_dist(fx(SCALE))
        .build(v3(0, 0, 0), v3(0, 0, -1))
        .expect("a valid pinhole configuration")
}

fn single_sphere_scene() -> World {
    let albedo = Vec3 { x: fx(SCALE / 2), y: fx(SCALE / 2), z: fx(SCALE / 2) };
    World::new(vec![Sphere::new(
        v3(0, 0, -1),
        fx(SCALE / 2),
        Material::Lambertian { albedo },
    )])
}

#[test]
fn builder_rejects_each_bad_configuration() {
    let from = v3(0, 0, 0);
    let to = v3(0, 0, -1);
    assert_eq!(
        CameraBuilder::new().image_width(0).build(from, to),
        Err(CameraError::ImageWidthZero)
    );
    assert_eq!(
        CameraBuilder::new().aspect_ratio(fx(0)).build(from, to),
        Err(CameraError::AspectRatioNotPositive)
    );
    assert_eq!(
        CameraBuilder::new().samples_per_pixel(0).build(from, to),
        Err(CameraError::SampleCountZero)
    );
    assert_eq!(
        CameraBuilder::new().vfov(fx(0)).build(from, to),
        Err(CameraError::FieldOfViewOutOfRange)
    );
    assert_eq!(
        CameraBuilder::new().vfov(fx(180 * SCALE)).build(from, to),
        Err(CameraError::FieldOfViewOutOfRange)
    );
    assert_eq!(
        CameraBuilder::new().defocus_angle(fx(-1)).build(from, to),
        Err(CameraError::DefocusAngleNegative)
    );
    assert_eq!(
        CameraBuilder::new().focus_dist(fx(0)).build(from, to),
        Err(CameraError::FocusDistanceNotPositive)
    );
    assert_eq!(
        CameraBuilder::new().build(from, from),
        Err(CameraError::DegenerateView)
    );
    // the up vector parallel to the view direction degenerates the frame
    assert_eq!(
        CameraBuilder::new().build(v3(0, 1, 0), v3(0, 0, 0)),
        Err(CameraError::DegenerateUp)
    );
}

#[test]
fn builder_accepts_the_defaults_and_derives_the_grid() {
    let cam = CameraBuilder::new().build(v3(0, 0, 0), v3(0, 0, -1)).expect("defaults are valid");
    assert_eq!(cam.image_width, 400);
    // 400 / (16/9) == 225
    assert_eq!(cam.image_height, 225);
    assert_eq!(cam.samples_per_pixel, 100);
    assert_eq!(cam.max_depth, 25);
    assert_eq!(cam.center, v3(0, 0, 0));
    assert_eq!(cam.defocus_angle.raw, 0);
}

#[test]
fn linear_to_gamma_takes_square_roots() {
    assert_eq!(Camera::linear_to_gamma(fx(SCALE / 4)).raw, SCALE / 2);
    assert_eq!(Camera::linear_to_gamma(fx(SCALE)).raw, SCALE);
    assert_eq!(Camera::linear_to_gamma(fx(0)).raw, 0);
    assert_eq!(Camera::linear_to_gamma(fx(-SCALE)).raw, 0);
}

#[test]
fn write_color_tone_maps_and_quantizes() {
    let color = Vec3 { x: fx(SCALE / 4), y: fx(SCALE), z: fx(0) };
    // gamma: (0.5, 1.0, 0.0); clamp to 0.999; quantize by 256
    assert_eq!(Camera::write_color(color), Rgb { r: 128, g: 255, b: 0 });
    let over = Vec3 { x: fx(4 * SCALE), y: fx(-SCALE), z: fx(SCALE / 4) };
    assert_eq!(Camera::write_color(over), Rgb { r: 255, g: 0, b: 128 });
}

#[test]
fn ray_color_at_depth_zero_is_black() {
    let world = single_sphere_scene();
    let rays = [
        Ray::new(v3(0, 0, 0), v3(0, 0, -1)),
        Ray::new(v3(5, -3, 2), v3(0, 1, 0)),
    ];
    for ray in rays.iter() {
        let mut rng = SampleRng::new(9);
        let c = ray_color(ray, &world, 0, &mut rng).expect("depth zero draws nothing");
        assert_eq!(c, v3(0, 0, 0));
    }
}

#[test]
fn ray_color_miss_is_the_background_gradient() {
    let world = single_sphere_scene();
    // a horizontal unit direction: a == 0.5, color == (0.75, 0.85, 1.0)
    let ray = Ray::new(v3(0, 0, 0), v3(1, 0, 0));
    let mut rng = SampleRng::new(0);
    let c = ray_color(&ray, &world, 5, &mut rng).expect("a miss draws nothing");
    assert_eq!(c.x.raw, 3 * SCALE / 4);
    // 0.5 * 1.0 + 0.5 * 0.7, in mantissas: 32768 + (45875 * 32768) / 65536
    assert_eq!(c.y.raw, 32768 + 22937);
    assert_eq!(c.z.raw, SCALE);
}

#[test]
fn one_bounce_scene_separates_sphere_from_sky() {
    // A 2x1-pixel render of a half-radius sphere one unit ahead: both pixel
    // rays graze past the sphere, so both pixels show the background
    // gradient, never the sphere's albedo.
    let cam = pinhole(2, 2 * SCALE, 1, 1);
    assert_eq!(cam.image_height, 1);
    let world = single_sphere_scene();
    let pixels = cam.render(&world).expect("the sample pool is never exhausted here");
    assert_eq!(pixels.len(), 2);
    for p in pixels.iter() {
        // the gradient keeps the blue channel saturated and stays bright
        assert_eq!(p.b, 255);
        assert!(p.r > 128);
    }
    // A ray aimed straight at the sphere at depth one terminates after its
    // single bounce: black, which is no brighter than the albedo and is not
    // a background color.
    let ray = Ray::new(v3(0, 0, 0), v3(0, 0, -1));
    let mut rng = SampleRng::new(0);
    let c = ray_color(&ray, &world, 1, &mut rng).expect("one bounce then black");
    assert_eq!(c, v3(0, 0, 0));
}

#[test]
fn tan_half_deg_tracks_the_tangent() {
    // tan(45 degrees) == 1, up to the series and mantissa truncation
    let t90 = raytracer::camera::tan_half_deg(fx(90 * SCALE));
    assert!((t90.raw - SCALE).abs() < 300, "tan(45deg) mantissa was {}", t90.raw);
    // tan(30) < tan(45) < tan(60)
    let t60 = raytracer::camera::tan_half_deg(fx(60 * SCALE));
    let t120 = raytracer::camera::tan_half_deg(fx(120 * SCALE));
    assert!(t60.raw < t90.raw && t90.raw < t120.raw);
    // tan(30 degrees) == 0.57735..., mantissa about 37837
    assert!((t60.raw - 37837).abs() < 300, "tan(30deg) mantissa was {}", t60.raw);
}

#[test]
fn defocus_camera_renders_deterministically() {
    // a positive aperture routes rays through the sampled lens disk
    let cam = CameraBuilder::new()
        .image_width(4)
        .aspect_ratio(fx(2 * SCALE))
        .samples_per_pixel(2)
        .max_depth(2)
        .defocus_angle(fx(10 * SCALE))
        .focus_dist(fx(SCALE))
        .build(v3(0, 0, 0), v3(0, 0, -1))
        .expect("a valid defocus configuration");
    assert!(cam.defocus_angle.raw > 0);
    let world = single_sphere_scene();
    let mut rng_a = SampleRng::new(5);
    let mut rng_b = SampleRng::new(5);
    let ra = cam.get_ray(&mut rng_a, 1, 0).expect("a lens sample is accepted");
    let rb = cam.get_ray(&mut rng_b, 1, 0).expect("a lens sample is accepted");
    assert_eq!(ra, rb);
    let first = cam.render(&world).expect("the sample pool is never exhausted here");
    let second = cam.render(&world).expect("the sample pool is never exhausted here");
    assert_eq!(first, second);
}

#[test]
fn get_ray_is_deterministic_per_seed() {
    let cam = pinhole(10, SCALE, 1, 1);
    let mut rng_a = SampleRng::new(7);
    let mut rng_b = SampleRng::new(7);
    let ra = cam.get_ray(&mut rng_a, 3, 4).expect("a pinhole camera draws no lens sample");
    let rb = cam.get_ray(&mut rng_b, 3, 4).expect("a pinhole camera draws no lens sample");
    assert_eq!(ra, rb);
    // looking down the negative z axis
    assert!(ra.direction.z.raw < 0);
}
