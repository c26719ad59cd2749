use raytracer::camera::Camera;
use raytracer::fixed::SCALE;
use raytracer::hitable::{HitableList, Sphere};
use raytracer::material::{reflect, refract, schlick, Material};
use raytracer::ray::Ray;
use raytracer::rng::RngState;
use raytracer::scene::{random_scene, random_scene_fresh};
use raytracer::vec3::Vec3;
use raytracer::SceneError;

fn gray() -> Material {
    Material::Lambertian { attenuation: Vec3::new(SCALE / 2, SCALE / 2, SCALE / 2) }
}

#[test]
fn reflect_mirrors_about_normal() {
    let v = Vec3::new(SCALE, -SCALE, 0);
    let n = Vec3::new(0, SCALE, 0);
    assert_eq!(reflect(v, n), Vec3::new(SCALE, SCALE, 0));
}

#[test]
fn refract_straight_through() {
    // Entering head-on (cosine 1) refraction keeps the direction axis.
    let v = Vec3::new(0, 0, -SCALE);
    let n = Vec3::new(0, 0, SCALE);
    let r = refract(v, n, SCALE).expect("head-on refraction exists");
    assert_eq!(r.x, 0);
    assert_eq!(r.y, 0);
    assert!(r.z < 0);
}

#[test]
fn refract_total_internal_reflection() {
    // A grazing ray at a high index ratio has a negative discriminant.
    let v = Vec3::new(SCALE, -300, 0);
    let n = Vec3::new(0, SCALE, 0);
    assert_eq!(refract(v, n, 3 * SCALE), None);
}

#[test]
fn schlick_at_normal_incidence() {
    // cosine = 1: only the r0^2 term is left; for index 1.5 r0 = 0.2.
    assert_eq!(schlick(SCALE, 98304), 2621);
}

#[test]
fn metal_zero_fuzz_is_exact_mirror() {
    let m = Material::Metal { attenuation: Vec3::new(SCALE, SCALE, SCALE), fuzziness: 0 };
    let r_in = Ray::new(Vec3::new(0, 2 * SCALE, 0), Vec3::new(SCALE, -SCALE, 0));
    let n = Vec3::new(0, SCALE, 0);
    let p = Vec3::new(SCALE, SCALE, 0);
    let expected = reflect(r_in.direction.unit(), n);
    let mut s1 = RngState::new(11);
    let mut s2 = RngState::new(999_999);
    let (ray1, att1, cont1) = m.scatter(&r_in, n, p, &mut s1);
    let (ray2, _att2, cont2) = m.scatter(&r_in, n, p, &mut s2);
    assert_eq!(ray1.direction, expected);
    assert_eq!(ray2.direction, expected);
    assert_eq!(cont1, cont2);
    assert!(cont1);
    assert_eq!(att1, Vec3::new(SCALE, SCALE, SCALE));
    assert_eq!(ray1.origin, p);
}

#[test]
fn lambertian_always_continues() {
    let m = Material::Lambertian { attenuation: Vec3::new(SCALE / 4, SCALE / 2, SCALE) };
    let r_in = Ray::new(Vec3::zero(), Vec3::new(0, 0, SCALE));
    let n = Vec3::new(0, SCALE, 0);
    let p = Vec3::new(0, 0, SCALE);
    let mut rng = RngState::new(3);
    let (scattered, att, cont) = m.scatter(&r_in, n, p, &mut rng);
    assert!(cont);
    assert_eq!(att, Vec3::new(SCALE / 4, SCALE / 2, SCALE));
    assert_eq!(scattered.origin, p);
}

#[test]
fn dielectric_always_continues_with_white_attenuation() {
    let m = Material::Dielectric { refraction: 98304 };
    let r_in = Ray::new(Vec3::zero(), Vec3::new(0, -SCALE, 0));
    let n = Vec3::new(0, SCALE, 0);
    let p = Vec3::new(0, -SCALE, 0);
    let mut rng = RngState::new(5);
    let (_scattered, att, cont) = m.scatter(&r_in, n, p, &mut rng);
    assert!(cont);
    assert_eq!(att, Vec3::new(SCALE, SCALE, SCALE));
}

#[test]
fn sphere_head_on_hit_distance() {
    // Center 5 ahead, radius 1: the hit is at distance 4.
    let sp = Sphere::new(Vec3::new(0, 0, 5 * SCALE), SCALE, gray()).unwrap();
    let ray = Ray::new(Vec3::zero(), Vec3::new(0, 0, SCALE));
    let h = sp.hit(&ray, 65, i64::MAX).expect("head-on ray hits");
    assert_eq!(h.t, 4 * SCALE);
    assert_eq!(h.p, Vec3::new(0, 0, 4 * SCALE));
    // The outward normal at the front surface points back at the ray.
    assert_eq!(h.normal, Vec3::new(0, 0, -SCALE));
}

#[test]
fn sphere_head_on_hit_from_offset_origin() {
    // The head-on distance law does not depend on where the ray starts.
    let o = Vec3::new(7 * SCALE, -3 * SCALE, 2 * SCALE);
    let sp = Sphere::new(o.plus(Vec3::new(0, 0, 6 * SCALE)), 2 * SCALE, gray()).unwrap();
    let ray = Ray::new(o, Vec3::new(0, 0, SCALE));
    let h = sp.hit(&ray, 65, i64::MAX).expect("head-on ray hits");
    assert_eq!(h.t, 4 * SCALE);
}

#[test]
fn sphere_missed_by_offset_ray() {
    // Perpendicular offset 2 exceeds the radius 1: no hit.
    let sp = Sphere::new(Vec3::new(2 * SCALE, 0, 5 * SCALE), SCALE, gray()).unwrap();
    let ray = Ray::new(Vec3::zero(), Vec3::new(0, 0, SCALE));
    assert_eq!(sp.hit(&ray, 65, i64::MAX), None);
}

#[test]
fn sphere_behind_ray_not_hit() {
    let sp = Sphere::new(Vec3::new(0, 0, -5 * SCALE), SCALE, gray()).unwrap();
    let ray = Ray::new(Vec3::zero(), Vec3::new(0, 0, SCALE));
    assert_eq!(sp.hit(&ray, 65, i64::MAX), None);
}

#[test]
fn sphere_construction_rejects_bad_radius() {
    assert_eq!(
        Sphere::new(Vec3::zero(), 0, gray()),
        Err(SceneError::NonPositiveRadius)
    );
    assert_eq!(
        Sphere::new(Vec3::zero(), -5 * SCALE, gray()),
        Err(SceneError::NonPositiveRadius)
    );
}

#[test]
fn sphere_construction_rejects_bad_material() {
    let too_fuzzy = Material::Metal {
        attenuation: Vec3::new(SCALE, SCALE, SCALE),
        fuzziness: SCALE + 1,
    };
    assert_eq!(
        Sphere::new(Vec3::zero(), SCALE, too_fuzzy),
        Err(SceneError::InvalidMaterial)
    );
    let thin_glass = Material::Dielectric { refraction: SCALE };
    assert_eq!(
        Sphere::new(Vec3::zero(), SCALE, thin_glass),
        Err(SceneError::InvalidMaterial)
    );
}

#[test]
fn scene_list_returns_nearest_hit() {
    let near = Sphere::new(Vec3::new(0, 0, 5 * SCALE), SCALE, gray()).unwrap();
    let far = Sphere::new(
        Vec3::new(0, 0, 10 * SCALE),
        SCALE,
        Material::Dielectric { refraction: 98304 },
    )
    .unwrap();
    let ray = Ray::new(Vec3::zero(), Vec3::new(0, 0, SCALE));
    // Whichever order the spheres are stored in, the nearer hit wins.
    let w1 = HitableList::new(vec![near, far]);
    let w2 = HitableList::new(vec![far, near]);
    let (h1, m1) = w1.hit(&ray, 65, i64::MAX).expect("hit");
    let (h2, m2) = w2.hit(&ray, 65, i64::MAX).expect("hit");
    assert_eq!(h1.t, 4 * SCALE);
    assert_eq!(h2.t, 4 * SCALE);
    assert_eq!(m1, gray());
    assert_eq!(m2, gray());
}

#[test]
fn scene_list_tie_keeps_first_sphere() {
    let red = Material::Lambertian { attenuation: Vec3::new(SCALE, 0, 0) };
    let blue = Material::Lambertian { attenuation: Vec3::new(0, 0, SCALE) };
    let a = Sphere::new(Vec3::new(0, 0, 5 * SCALE), SCALE, red).unwrap();
    let b = Sphere::new(Vec3::new(0, 0, 5 * SCALE), SCALE, blue).unwrap();
    let w = HitableList::new(vec![a, b]);
    let ray = Ray::new(Vec3::zero(), Vec3::new(0, 0, SCALE));
    let (_, m) = w.hit(&ray, 65, i64::MAX).expect("hit");
    assert_eq!(m, red);
}

#[test]
fn scene_list_empty_misses() {
    let w = HitableList::new(vec![]);
    let ray = Ray::new(Vec3::zero(), Vec3::new(0, 0, SCALE));
    assert_eq!(w.hit(&ray, 65, i64::MAX), None);
}

#[test]
fn camera_rejects_coincident_eye_and_target() {
    let r = Camera::new(
        Vec3::new(SCALE, SCALE, SCALE),
        Vec3::new(SCALE, SCALE, SCALE),
        Vec3::new(0, SCALE, 0),
        15 * SCALE,
        SCALE,
        0,
        SCALE,
    );
    assert_eq!(r, Err(SceneError::DegenerateCamera));
}

#[test]
fn camera_rejects_up_parallel_to_view() {
    let r = Camera::new(
        Vec3::zero(),
        Vec3::new(0, 0, -4 * SCALE),
        Vec3::new(0, 0, SCALE),
        15 * SCALE,
        SCALE,
        0,
        4 * SCALE,
    );
    assert_eq!(r, Err(SceneError::DegenerateCamera));
}

#[test]
fn camera_zero_aperture_rays_start_at_eye() {
    let eye = Vec3::new(0, 0, 4 * SCALE);
    let cam = Camera::new(
        eye,
        Vec3::zero(),
        Vec3::new(0, SCALE, 0),
        20 * SCALE,
        SCALE,
        0,
        4 * SCALE,
    )
    .unwrap();
    let mut rng = RngState::new(9);
    let r = cam.get_ray(SCALE / 2, SCALE / 2, &mut rng);
    assert_eq!(r.origin, eye);
    // The center ray looks from +z toward the origin.
    assert!(r.direction.z < 0);
}

#[test]
fn random_scene_is_deterministic_and_valid() {
    let mut r1 = RngState::new(1234);
    let mut r2 = RngState::new(1234);
    let w1 = random_scene(&mut r1);
    let w2 = random_scene(&mut r2);
    assert_eq!(w1.list, w2.list);
    assert!(w1.check());
    // ground sphere first, three feature spheres last
    let n = w1.list.len();
    assert!(n >= 4 && n <= 488);
    assert_eq!(w1.list[0].radius, 1000 * SCALE);
    assert_eq!(w1.list[0].center, Vec3::new(0, -1000 * SCALE, 0));
    assert_eq!(w1.list[n - 3].material, Material::Dielectric { refraction: 98304 });
    assert_eq!(w1.list[n - 1].radius, SCALE);
}

#[test]
fn random_scene_fresh_is_valid() {
    let w = random_scene_fresh();
    assert!(w.check());
    assert!(w.len() >= 4);
}
