//! The showcase scene: a ground sphere, a 22x22 grid of small spheres with
//! randomly drawn positions and materials, and three large feature spheres.

use vstd::prelude::*;

use crate::fixed::fmul;
use crate::fixed::fmul_s;
use crate::fixed::sadd;
use crate::fixed::sadd_s;
use crate::fixed::to_fixed;
use crate::fixed::to_fixed_s;
use crate::hitable::HitableList;
use crate::hitable::Sphere;
use crate::material::Material;
use crate::rng::frac_of;
use crate::rng::init_s;
use crate::rng::next_s;
use crate::rng::RngState;
use crate::vec3::length_s;
use crate::vec3::minus_s;
use crate::vec3::Vec3;

verus! {

/// The ground: a huge diffuse gray sphere below the grid.
pub open spec fn ground_s() -> Sphere {
    Sphere {
        center: Vec3 { x: 0, y: -65536000i64, z: 0 },
        radius: 65536000,
        material: Material::Lambertian { attenuation: Vec3 { x: 32768, y: 32768, z: 32768 } },
    }
}

/// The large glass feature sphere.
pub open spec fn big_glass_s() -> Sphere {
    Sphere {
        center: Vec3 { x: 0, y: 65536, z: 0 },
        radius: 65536,
        material: Material::Dielectric { refraction: 98304 },
    }
}

/// The large diffuse feature sphere.
pub open spec fn big_diffuse_s() -> Sphere {
    Sphere {
        center: Vec3 { x: -262144i64, y: 65536, z: 0 },
        radius: 65536,
        material: Material::Lambertian { attenuation: Vec3 { x: 26214, y: 13107, z: 6554 } },
    }
}

/// The large polished-metal feature sphere.
pub open spec fn big_metal_s() -> Sphere {
    Sphere {
        center: Vec3 { x: 262144, y: 65536, z: 0 },
        radius: 65536,
        material: Material::Metal {
            attenuation: Vec3 { x: 45875, y: 39322, z: 32768 },
            fuzziness: 0,
        },
    }
}

/// One grid cell at coordinates `(a, b)`: draw a material choice and a
/// jittered center; skip positions too close to the feature spheres; weigh
/// the material kinds 80% diffuse, 15% metal, 5% glass.
pub open spec fn scene_cell_s(a: i64, b: i64, seed: u64) -> (Seq<Sphere>, u64) {
    let s1: u64 = next_s(seed);
    let choose_mat: i64 = frac_of(s1);
    let s2: u64 = next_s(s1);
    let s3: u64 = next_s(s2);
    let center: Vec3 = Vec3 {
        x: sadd_s(to_fixed_s(a), fmul_s(58982, frac_of(s2))),
        y: 13107,
        z: sadd_s(to_fixed_s(b), fmul_s(58982, frac_of(s3))),
    };
    if length_s(minus_s(center, Vec3 { x: 262144, y: 13107, z: 0 })) > 58982 {
        if choose_mat < 52429 {
            let s4: u64 = next_s(s3);
            let s5: u64 = next_s(s4);
            let s6: u64 = next_s(s5);
            let s7: u64 = next_s(s6);
            let s8: u64 = next_s(s7);
            let s9: u64 = next_s(s8);
            let att: Vec3 = Vec3 {
                x: fmul_s(frac_of(s4), frac_of(s5)),
                y: fmul_s(frac_of(s6), frac_of(s7)),
                z: fmul_s(frac_of(s8), frac_of(s9)),
            };
            (
                seq![
                    Sphere { center, radius: 13107, material: Material::Lambertian { attenuation: att } },
                ],
                s9,
            )
        } else if choose_mat < 62259 {
            let s4: u64 = next_s(s3);
            let s5: u64 = next_s(s4);
            let s6: u64 = next_s(s5);
            let s7: u64 = next_s(s6);
            let att: Vec3 = Vec3 {
                x: fmul_s(32768, sadd_s(65536, frac_of(s4))),
                y: fmul_s(32768, sadd_s(65536, frac_of(s5))),
                z: fmul_s(32768, sadd_s(65536, frac_of(s6))),
            };
            (
                seq![
                    Sphere {
                        center,
                        radius: 13107,
                        material: Material::Metal {
                            attenuation: att,
                            fuzziness: fmul_s(32768, frac_of(s7)),
                        },
                    },
                ],
                s7,
            )
        } else {
            (
                seq![
                    Sphere { center, radius: 13107, material: Material::Dielectric { refraction: 98304 } },
                ],
                s3,
            )
        }
    } else {
        (Seq::empty(), s3)
    }
}

/// The grid cells from flat index `k` on (row `k / 22`, column `k % 22`,
/// each shifted to the range -11..11), folded onto `acc`.
pub open spec fn scene_cells_s(k: nat, seed: u64, acc: Seq<Sphere>) -> (Seq<Sphere>, u64)
    decreases 484 - k,
{
    if k >= 484 {
        (acc, seed)
    } else {
        let a: i64 = (k as int / 22 - 11) as i64;
        let b: i64 = (k as int % 22 - 11) as i64;
        let c: (Seq<Sphere>, u64) = scene_cell_s(a, b, seed);
        scene_cells_s(k + 1, c.1, acc + c.0)
    }
}

/// The whole scene drawn from one stream state: the ground sphere, the grid
/// cells in order, then the three feature spheres.
pub open spec fn random_scene_s(seed: u64) -> (Seq<Sphere>, u64) {
    let cells: (Seq<Sphere>, u64) = scene_cells_s(0, seed, seq![ground_s()]);
    (cells.0 + seq![big_glass_s(), big_diffuse_s(), big_metal_s()], cells.1)
}

/// The product of two fractions in [0, 1) stays in [0, 1].
proof fn lemma_frac_product_unit(f1: i64, f2: i64)
    requires
        0 <= f1 < 65536,
        0 <= f2 < 65536,
    ensures
        0 <= fmul_s(f1, f2) <= 65536,
{
    assert(0 <= f1 as int * f2 as int <= 65535 * 65535) by (nonlinear_arith)
        requires
            0 <= f1 < 65536,
            0 <= f2 < 65536,
    ;
}

/// Populate the showcase scene, drawing positions and materials from `rng`.
/// Every produced sphere is valid: positive radius, in-range materials.
pub fn random_scene(rng: &mut RngState) -> (w: HitableList)
    ensures
        w.list@ == random_scene_s(old(rng).s).0,
        final(rng).s == random_scene_s(old(rng).s).1,
        w.wf(),
{
    let mut list: Vec<Sphere> = Vec::new();
    list.push(
        Sphere {
            center: Vec3::new(0, -65536000, 0),
            radius: 65536000,
            material: Material::Lambertian { attenuation: Vec3::new(32768, 32768, 32768) },
        },
    );
    assert(list@ =~= seq![ground_s()]);
    let mut k: u32 = 0;
    while k < 484
        invariant
            0 <= k <= 484,
            scene_cells_s(k as nat, rng.s, list@) == scene_cells_s(
                0,
                old(rng).s,
                seq![ground_s()],
            ),
            forall|i: int| 0 <= i < list@.len() ==> (#[trigger] list@[i]).wf(),
        decreases 484 - k,
    {
        let ghost pre: Seq<Sphere> = list@;
        let ghost seed0: u64 = rng.s;
        let a: i64 = (k / 22) as i64 - 11;
        let b: i64 = (k % 22) as i64 - 11;
        let choose_mat: i64 = rng.unit_frac();
        let fx: i64 = rng.unit_frac();
        let fz: i64 = rng.unit_frac();
        let center: Vec3 = Vec3::new(
            sadd(to_fixed(a), fmul(58982, fx)),
            13107,
            sadd(to_fixed(b), fmul(58982, fz)),
        );
        if center.minus(Vec3::new(262144, 13107, 0)).length() > 58982 {
            if choose_mat < 52429 {
                let f1: i64 = rng.unit_frac();
                let f2: i64 = rng.unit_frac();
                let f3: i64 = rng.unit_frac();
                let f4: i64 = rng.unit_frac();
                let f5: i64 = rng.unit_frac();
                let f6: i64 = rng.unit_frac();
                proof {
                    lemma_frac_product_unit(f1, f2);
                    lemma_frac_product_unit(f3, f4);
                    lemma_frac_product_unit(f5, f6);
                }
                let sp: Sphere = Sphere {
                    center,
                    radius: 13107,
                    material: Material::Lambertian {
                        attenuation: Vec3::new(fmul(f1, f2), fmul(f3, f4), fmul(f5, f6)),
                    },
                };
                list.push(sp);
                assert(list@ =~= pre + scene_cell_s(a, b, seed0).0);
            } else if choose_mat < 62259 {
                let g1: i64 = rng.unit_frac();
                let g2: i64 = rng.unit_frac();
                let g3: i64 = rng.unit_frac();
                let g4: i64 = rng.unit_frac();
                let sp: Sphere = Sphere {
                    center,
                    radius: 13107,
                    material: Material::Metal {
                        attenuation: Vec3::new(
                            fmul(32768, sadd(65536, g1)),
                            fmul(32768, sadd(65536, g2)),
                            fmul(32768, sadd(65536, g3)),
                        ),
                        fuzziness: fmul(32768, g4),
                    },
                };
                list.push(sp);
                assert(list@ =~= pre + scene_cell_s(a, b, seed0).0);
            } else {
                let sp: Sphere = Sphere {
                    center,
                    radius: 13107,
                    material: Material::Dielectric { refraction: 98304 },
                };
                list.push(sp);
                assert(list@ =~= pre + scene_cell_s(a, b, seed0).0);
            }
        } else {
            assert(list@ =~= pre + scene_cell_s(a, b, seed0).0);
        }
        k = k + 1;
    }
    let ghost cells: Seq<Sphere> = list@;
    list.push(
        Sphere {
            center: Vec3::new(0, 65536, 0),
            radius: 65536,
            material: Material::Dielectric { refraction: 98304 },
        },
    );
    list.push(
        Sphere {
            center: Vec3::new(-262144, 65536, 0),
            radius: 65536,
            material: Material::Lambertian { attenuation: Vec3::new(26214, 13107, 6554) },
        },
    );
    list.push(
        Sphere {
            center: Vec3::new(262144, 65536, 0),
            radius: 65536,
            material: Material::Metal {
                attenuation: Vec3::new(45875, 39322, 32768),
                fuzziness: 0,
            },
        },
    );
    assert(list@ =~= cells + seq![big_glass_s(), big_diffuse_s(), big_metal_s()]);
    HitableList::new(list)
}

/// Relies on rand::random: one fresh seed from the thread-local generator.
/// Nothing is assumed of the value drawn.
#[verifier::external_body]
fn fresh_seed() -> u64 {
    rand::random::<u64>()
}

/// Populate the showcase scene from a freshly drawn seed, as a convenience
/// for callers that do not manage seeds themselves. The scene is one of the
/// family `random_scene_s` describes, and every sphere in it is valid.
pub fn random_scene_fresh() -> (w: HitableList)
    ensures
        w.wf(),
        exists|seed: u64| w.list@ == (#[trigger] random_scene_s(seed)).0,
{
    let s: u64 = fresh_seed();
    let mut rng: RngState = RngState::new(s);
    let w: HitableList = random_scene(&mut rng);
    proof {
        assert(w.list@ == random_scene_s(init_s(s)).0);
    }
    w
}

} // verus!
