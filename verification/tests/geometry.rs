use raytracer::fixed::{Fx, MAX_RAW, SCALE};
use raytracer::interval::Interval;
use raytracer::material::Material;
use raytracer::ray::Ray;
use raytracer::sphere::Sphere;
use raytracer::vec3::Vec3;

fn fx(raw: i64) -> Fx {
    Fx { raw }
}

fn v3(x: i64, y: i64, z: i64) -> Vec3 {
    Vec3 { x: fx(x * SCALE), y: fx(y * SCALE), z: fx(z * SCALE) }
}

fn gray() -> Material {
    Material::Lambertian { albedo: Vec3 { x: fx(SCALE / 2), y: fx(SCALE / 2), z: fx(SCALE / 2) } }
}

#[test]
fn vector_arithmetic_is_componentwise() {
    let a = v3(1, 2, 3);
    let b = v3(4, -5, 6);
    assert_eq!(a.add(b), v3(5, -3, 9));
    assert_eq!(a.sub(b), v3(-3, 7, -3));
    assert_eq!(a.neg(), v3(-1, -2, -3));
    assert_eq!(a.scale(fx(2 * SCALE)), v3(2, 4, 6));
    assert_eq!(a.component_mul(b), v3(4, -10, 18));
    assert_eq!(a.dot(b).raw, (4 - 10 + 18) * SCALE);
}

#[test]
fn cross_product_of_basis_vectors() {
    let x = v3(1, 0, 0);
    let y = v3(0, 1, 0);
    let z = v3(0, 0, 1);
    assert_eq!(x.cross(y), z);
    assert_eq!(y.cross(z), x);
    assert_eq!(y.cross(x), z.neg());
}

#[test]
fn length_and_normalize() {
    let a = v3(0, 3, 4);
    assert_eq!(a.length2().raw, 25 * SCALE);
    assert_eq!(a.length().raw, 5 * SCALE);
    let n = a.normalize();
    assert_eq!(n.x.raw, 0);
    assert_eq!(n.y.raw, 3 * SCALE / 5);
    assert_eq!(n.z.raw, 4 * SCALE / 5);
    // the zero vector stays zero under normalization
    assert_eq!(v3(0, 0, 0).normalize(), v3(0, 0, 0));
}

#[test]
fn reflect_mirrors_about_the_normal() {
    let d = v3(1, -1, 0);
    let n = v3(0, 1, 0);
    // d - 2 * dot(d, n) * n == (1, 1, 0)
    assert_eq!(d.reflect(n), v3(1, 1, 0));
}

#[test]
fn interval_contains_surrounds_clamp() {
    let iv = Interval::new(fx(0), fx(10 * SCALE));
    assert!(iv.contains(fx(0)));
    assert!(iv.contains(fx(10 * SCALE)));
    assert!(!iv.contains(fx(-1)));
    assert!(!iv.surrounds(fx(0)));
    assert!(iv.surrounds(fx(1)));
    assert!(!iv.surrounds(fx(10 * SCALE)));
    assert_eq!(iv.clamp(fx(-5)).raw, 0);
    assert_eq!(iv.clamp(fx(11 * SCALE)).raw, 10 * SCALE);
    assert_eq!(iv.clamp(fx(3)).raw, 3);
    assert_eq!(iv.size().raw, 10 * SCALE);
    let empty = Interval::empty();
    assert!(!empty.contains(fx(0)));
}

#[test]
fn ray_at_walks_the_parameter() {
    let r = Ray::new(v3(1, 0, 0), v3(0, 2, 0));
    assert_eq!(r.at(fx(SCALE / 2)), v3(1, 1, 0));
    assert_eq!(r.at(fx(0)), v3(1, 0, 0));
}

#[test]
fn sphere_hit_straight_on_is_exact() {
    // Unit-direction ray from the origin into a half-radius sphere ahead.
    let sphere = Sphere::new(v3(0, 0, -1), fx(SCALE / 2), gray());
    let ray = Ray::new(v3(0, 0, 0), v3(0, 0, -1));
    let iv = Interval::new(fx(65), fx(MAX_RAW));
    let hit = sphere.hit(&ray, &iv).expect("the ray points through the sphere");
    assert_eq!(hit.t.raw, SCALE / 2);
    assert_eq!(hit.p, Vec3 { x: fx(0), y: fx(0), z: fx(-SCALE / 2) });
    assert_eq!(hit.normal, v3(0, 0, 1));
    assert!(hit.front_face);
    // the normal opposes the ray direction
    assert!(hit.normal.dot(ray.direction).raw <= 0);
    // and the reported parameter lies strictly inside the interval
    assert!(iv.surrounds(hit.t));
}

#[test]
fn sphere_hit_from_inside_reports_back_face() {
    let sphere = Sphere::new(v3(0, 0, 0), fx(SCALE), gray());
    let ray = Ray::new(v3(0, 0, 0), v3(0, 0, -1));
    let iv = Interval::new(fx(65), fx(MAX_RAW));
    let hit = sphere.hit(&ray, &iv).expect("the origin lies inside the sphere");
    assert!(!hit.front_face);
    assert_eq!(hit.t.raw, SCALE);
    assert!(hit.normal.dot(ray.direction).raw <= 0);
}

#[test]
fn sphere_miss_is_none_for_every_interval() {
    let sphere = Sphere::new(v3(0, 0, -1), fx(SCALE / 2), gray());
    let ray = Ray::new(v3(0, 0, 0), v3(0, 1, 0));
    assert!(sphere.hit(&ray, &Interval::new(fx(65), fx(MAX_RAW))).is_none());
    assert!(sphere.hit(&ray, &Interval::full()).is_none());
    assert!(sphere.hit(&ray, &Interval::empty()).is_none());
    assert!(sphere.hit(&ray, &Interval::new(fx(-MAX_RAW), fx(MAX_RAW))).is_none());
}

#[test]
fn degenerate_ray_direction_never_hits() {
    // a zero-length direction is treated as "no hit", not an error, even
    // for intervals that strictly contain zero
    let sphere = Sphere::new(v3(0, 0, -1), fx(SCALE / 2), gray());
    let ray = Ray::new(v3(0, 0, -1), v3(0, 0, 0));
    assert!(sphere.hit(&ray, &Interval::full()).is_none());
    assert!(sphere.hit(&ray, &Interval::new(fx(-SCALE), fx(SCALE))).is_none());
    assert!(sphere.hit(&ray, &Interval::new(fx(65), fx(MAX_RAW))).is_none());
    // a direction below the squaring resolution is degenerate too
    let tiny = Ray::new(v3(0, 0, 0), Vec3 { x: fx(2), y: fx(2), z: fx(-2) });
    assert!(sphere.hit(&tiny, &Interval::full()).is_none());
}

#[test]
fn sphere_hit_respects_the_interval() {
    let sphere = Sphere::new(v3(0, 0, -1), fx(SCALE / 2), gray());
    let ray = Ray::new(v3(0, 0, 0), v3(0, 0, -1));
    // the window stops short of the near root at t == 0.5
    assert!(sphere.hit(&ray, &Interval::new(fx(65), fx(SCALE / 4))).is_none());
    // a window that excludes the near root but admits the far one (t == 1.5)
    let far = sphere.hit(&ray, &Interval::new(fx(SCALE), fx(MAX_RAW))).expect("far root");
    assert_eq!(far.t.raw, 3 * SCALE / 2);
    assert!(!far.front_face);
}
