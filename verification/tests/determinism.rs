use rand::RngCore;
use rand::SeedableRng;
use rand_chacha::ChaCha8Rng;

use raytracer::builder::CameraBuilder;
use raytracer::fixed::{Fx, SCALE};
use raytracer::interval::Interval;
use raytracer::material::Material;
use raytracer::random::{
    random_unit_vector, random_vector, random_vector_in_unit_disk, random_vector_in_unit_sphere,
    SampleRng,
};
use raytracer::sphere::Sphere;
use raytracer::vec3::Vec3;
use raytracer::world::World;

fn fx(raw: i64) -> Fx {
    Fx { raw }
}

fn v3(x: i64, y: i64, z: i64) -> Vec3 {
    Vec3 { x: fx(x * SCALE), y: fx(y * SCALE), z: fx(z * SCALE) }
}

#[test]
fn sample_rng_matches_the_chacha_stream() {
    // the library's generator emits exactly the words of a ChaCha generator
    // with eight rounds seeded the same way
    for seed in [0u64, 1, 7, 123456789] {
        let mut theirs = ChaCha8Rng::seed_from_u64(seed);
        let mut ours = SampleRng::new(seed);
        for _ in 0..16 {
            assert_eq!(ours.next_word(), theirs.next_u32());
        }
    }
}

#[test]
fn different_seeds_give_different_streams() {
    let mut a = SampleRng::new(0);
    let mut b = SampleRng::new(1);
    let first_a: Vec<u32> = (0..4).map(|_| a.next_word()).collect();
    let first_b: Vec<u32> = (0..4).map(|_| b.next_word()).collect();
    assert_ne!(first_a, first_b);
}

#[test]
fn unit_sphere_samples_stay_inside_and_replay() {
    for seed in 0..50u64 {
        let mut rng = SampleRng::new(seed);
        let v = random_vector_in_unit_sphere(&mut rng).expect("a candidate is accepted");
        assert!(0 < v.length2().raw && v.length2().raw < SCALE);
        let mut replay = SampleRng::new(seed);
        assert_eq!(random_vector_in_unit_sphere(&mut replay), Some(v));
    }
}

#[test]
fn random_vector_draws_stay_in_range() {
    let iv = Interval::new(fx(-SCALE), fx(SCALE));
    for seed in 0..20u64 {
        let mut rng = SampleRng::new(seed);
        let bounded = random_vector(&mut rng, Some(iv));
        for c in [bounded.x, bounded.y, bounded.z] {
            assert!(-SCALE <= c.raw && c.raw < SCALE);
        }
        let unit = random_vector(&mut rng, None);
        for c in [unit.x, unit.y, unit.z] {
            assert!(0 <= c.raw && c.raw < SCALE);
        }
    }
}

#[test]
fn unit_vectors_are_deterministic_and_nonzero() {
    let mut a = SampleRng::new(11);
    let mut b = SampleRng::new(11);
    let ua = random_unit_vector(&mut a).expect("a candidate is accepted");
    let ub = random_unit_vector(&mut b).expect("a candidate is accepted");
    assert_eq!(ua, ub);
    assert!(ua.x.raw != 0 || ua.y.raw != 0 || ua.z.raw != 0);
}

#[test]
fn unit_disk_samples_lie_in_the_lens_plane() {
    for seed in 0..50u64 {
        let mut rng = SampleRng::new(seed);
        let p = random_vector_in_unit_disk(&mut rng).expect("a candidate is accepted");
        assert_eq!(p.z.raw, 0);
        assert!(p.length2().raw < SCALE);
        let mut replay = SampleRng::new(seed);
        assert_eq!(random_vector_in_unit_disk(&mut replay), Some(p));
    }
}

fn three_material_scene() -> World {
    let ground = Material::Lambertian {
        albedo: Vec3 { x: fx(4 * SCALE / 5), y: fx(4 * SCALE / 5), z: fx(0) },
    };
    let center = Material::Lambertian {
        albedo: Vec3 { x: fx(SCALE / 10), y: fx(SCALE / 5), z: fx(SCALE / 2) },
    };
    let left = Material::Dielectric { refraction_index: fx(3 * SCALE / 2) };
    let right = Material::Metal {
        albedo: Vec3 { x: fx(4 * SCALE / 5), y: fx(3 * SCALE / 5), z: fx(SCALE / 5) },
        fuzz: fx(SCALE / 2),
    };
    let mut world = World::new(vec![]);
    world.add(Sphere::new(
        Vec3 { x: fx(0), y: fx(-100 * SCALE - SCALE / 2), z: fx(-SCALE) },
        fx(100 * SCALE),
        ground,
    ));
    world.add(Sphere::new(v3(0, 0, -1), fx(SCALE / 2), center));
    world.add(Sphere::new(v3(-1, 0, -1), fx(SCALE / 2), left));
    world.add(Sphere::new(v3(1, 0, -1), fx(SCALE / 2), right));
    world
}

#[test]
fn rendering_twice_is_bit_identical() {
    let cam = CameraBuilder::new()
        .image_width(8)
        .aspect_ratio(fx(2 * SCALE))
        .samples_per_pixel(3)
        .max_depth(4)
        .build(v3(-2, 2, 1), v3(0, 0, -1))
        .expect("valid config");
    assert_eq!(cam.image_height, 4);
    let world = three_material_scene();
    let first = cam.render(&world).expect("the sample pool is never exhausted here");
    let second = cam.render(&world).expect("the sample pool is never exhausted here");
    assert_eq!(first.len(), 8 * 4);
    assert_eq!(first, second);
}

#[test]
fn render_pixel_matches_the_rendered_image() {
    // pixels come out in raster order: row-major, top to bottom
    let cam = CameraBuilder::new()
        .image_width(4)
        .aspect_ratio(fx(2 * SCALE))
        .samples_per_pixel(2)
        .max_depth(3)
        .build(v3(0, 0, 0), v3(0, 0, -1))
        .expect("valid config");
    let world = three_material_scene();
    let image = cam.render(&world).expect("the sample pool is never exhausted here");
    assert_eq!(image.len(), 4 * 2);
    for j in 0..2u32 {
        for i in 0..4u32 {
            let lone = cam
                .render_pixel(&world, i, j)
                .expect("the sample pool is never exhausted here");
            assert_eq!(image[(j * 4 + i) as usize], lone);
        }
    }
}
