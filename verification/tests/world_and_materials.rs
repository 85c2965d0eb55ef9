use raytracer::fixed::{Fx, MAX_RAW, SCALE};
use raytracer::interval::Interval;
use raytracer::material::{refract, Material};
use raytracer::random::SampleRng;
use raytracer::ray::Ray;
use raytracer::sphere::Sphere;
use raytracer::vec3::Vec3;
use raytracer::world::World;

fn fx(raw: i64) -> Fx {
    Fx { raw }
}

fn v3(x: i64, y: i64, z: i64) -> Vec3 {
    Vec3 { x: fx(x * SCALE), y: fx(y * SCALE), z: fx(z * SCALE) }
}

fn gray() -> Material {
    Material::Lambertian { albedo: Vec3 { x: fx(SCALE / 2), y: fx(SCALE / 2), z: fx(SCALE / 2) } }
}

fn scan() -> Interval {
    Interval::new(fx(65), fx(MAX_RAW))
}

#[test]
fn world_returns_the_nearest_hit() {
    let near = Sphere::new(v3(0, 0, -2), fx(SCALE / 2), gray());
    let far = Sphere::new(v3(0, 0, -6), fx(SCALE / 2), gray());
    let ray = Ray::new(v3(0, 0, 0), v3(0, 0, -1));
    let iv = scan();

    // scanning in either order gives the near sphere's own hit
    let world_a = World::new(vec![near, far]);
    let world_b = World::new(vec![far, near]);
    let expected = near.hit(&ray, &iv).expect("the near sphere is in the way");
    assert_eq!(world_a.hit(&ray, &iv).expect("hit"), expected);
    assert_eq!(world_b.hit(&ray, &iv).expect("hit"), expected);
}

#[test]
fn world_agrees_with_the_manual_minimum() {
    let spheres = vec![
        Sphere::new(v3(0, 0, -6), fx(SCALE / 2), gray()),
        Sphere::new(v3(0, 0, -2), fx(SCALE / 2), gray()),
        Sphere::new(v3(0, 5, 0), fx(SCALE), gray()),
    ];
    let ray = Ray::new(v3(0, 0, 0), v3(0, 0, -1));
    let iv = scan();
    let mut best = None;
    for s in &spheres {
        if let Some(h) = s.hit(&ray, &iv) {
            best = match best {
                None => Some(h),
                Some(c) => {
                    let keep: raytracer::hit::HitRecord = c;
                    if h.t.raw < keep.t.raw {
                        Some(h)
                    } else {
                        Some(keep)
                    }
                },
            };
        }
    }
    let world = World::new(spheres);
    assert_eq!(world.hit(&ray, &iv), best);
}

#[test]
fn empty_world_reports_no_hit() {
    let world = World::new(vec![]);
    let ray = Ray::new(v3(0, 0, 0), v3(0, 0, -1));
    assert!(world.hit(&ray, &scan()).is_none());
}

#[test]
fn world_add_extends_the_scan() {
    let mut world = World::new(vec![]);
    let ray = Ray::new(v3(0, 0, 0), v3(0, 0, -1));
    assert!(world.hit(&ray, &scan()).is_none());
    world.add(Sphere::new(v3(0, 0, -2), fx(SCALE / 2), gray()));
    assert!(world.hit(&ray, &scan()).is_some());
}

fn straight_hit() -> (Ray, raytracer::hit::HitRecord) {
    let sphere = Sphere::new(v3(0, 0, -1), fx(SCALE / 2), gray());
    let ray = Ray::new(v3(0, 0, 0), v3(0, 0, -1));
    let hit = sphere.hit(&ray, &scan()).expect("straight-on hit");
    (ray, hit)
}

#[test]
fn lambertian_always_scatters_toward_the_hemisphere() {
    let (ray, hit) = straight_hit();
    let albedo = Vec3 { x: fx(SCALE / 2), y: fx(SCALE / 2), z: fx(SCALE / 2) };
    let material = Material::Lambertian { albedo };
    let mut dot_sum: i64 = 0;
    for seed in 0..200u64 {
        let mut rng = SampleRng::new(seed);
        let (scattered, attenuation) = material
            .scatter(&ray, &hit, &mut rng)
            .expect("the sample pool is never exhausted here")
            .expect("diffuse never absorbs");
        assert_eq!(attenuation, albedo);
        assert_eq!(scattered.origin, hit.p);
        dot_sum += scattered.direction.dot(hit.normal).raw;
    }
    // the diffuse hemisphere property: non-negative in expectation
    assert!(dot_sum >= 0);
}

#[test]
fn metal_with_zero_fuzz_mirrors_exactly() {
    let (ray, hit) = straight_hit();
    let albedo = Vec3 { x: fx(SCALE), y: fx(SCALE), z: fx(SCALE) };
    let material = Material::Metal { albedo, fuzz: fx(0) };
    let mut rng = SampleRng::new(3);
    let (scattered, attenuation) = material
        .scatter(&ray, &hit, &mut rng)
        .expect("the sample pool is never exhausted here")
        .expect("mirror");
    // d - 2 * dot(d, n) * n, normalized
    let expected = ray.direction.reflect(hit.normal).normalize();
    assert_eq!(scattered.direction, expected);
    assert_eq!(ray.direction.reflect(hit.normal), v3(0, 0, 1));
    assert_eq!(attenuation, albedo);
}

#[test]
fn metal_absorbs_rays_pushed_into_the_surface() {
    // a reflection pointing along the inward normal is absorbed
    let material = Material::Metal { albedo: v3(1, 1, 1), fuzz: fx(0) };
    let hit = raytracer::hit::HitRecord::new(
        fx(SCALE),
        v3(0, 0, 0),
        v3(0, 1, 0),
        true,
        material,
    );
    let ray = Ray::new(v3(0, -1, 0), v3(0, 1, 0));
    let mut rng = SampleRng::new(0);
    let scattered = material
        .scatter(&ray, &hit, &mut rng)
        .expect("the sample pool is never exhausted here");
    assert!(scattered.is_none());
}

#[test]
fn dielectric_with_unit_index_passes_straight_through() {
    let (ray, hit) = straight_hit();
    let material = Material::Dielectric { refraction_index: fx(SCALE) };
    let mut rng = SampleRng::new(0);
    let (scattered, attenuation) = material
        .scatter(&ray, &hit, &mut rng)
        .expect("glass draws no vector samples")
        .expect("glass always scatters");
    // at normal incidence with matched indices the direction is unchanged
    assert_eq!(scattered.direction, ray.direction.normalize());
    assert_eq!(attenuation, v3(1, 1, 1));
}

#[test]
fn refract_bends_by_snells_law_at_normal_incidence() {
    let uv = v3(0, 0, -1);
    let n = v3(0, 0, 1);
    assert_eq!(refract(uv, n, fx(SCALE)), uv);
    // entering a denser medium head-on also keeps the direction
    assert_eq!(refract(uv, n, fx(2 * SCALE / 3)), uv);
}
