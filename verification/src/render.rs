//! The radiance integrator and the sampling driver: recursive depth-bounded
//! radiance accumulation, per-pixel jittered sampling, gamma-2 correction and
//! integer channel mapping.

use vstd::prelude::*;

use crate::camera::get_ray_s;
use crate::camera::Camera;
use crate::fixed::fdiv;
use crate::fixed::fdiv_s;
use crate::fixed::fmul;
use crate::fixed::fmul_s;
use crate::fixed::fsqrt;
use crate::fixed::fsqrt_s;
use crate::fixed::sadd;
use crate::fixed::sadd_s;
use crate::fixed::ssub;
use crate::fixed::ssub_s;
use crate::fixed::to_fixed;
use crate::fixed::to_fixed_s;
use crate::hitable::hit_list_from;
use crate::hitable::hit_list_s;
use crate::hitable::HitableList;
use crate::hitable::HitRecord;
use crate::hitable::Sphere;
use crate::material::scatter_s;
use crate::material::Material;
use crate::ray::Ray;
use crate::rng::RngState;
use crate::vec3::hadamard_s;
use crate::vec3::plus_s;
use crate::vec3::scaled_s;
use crate::vec3::unit_s;
use crate::vec3::zero_s;
use crate::vec3::Vec3;

verus! {

/// Self-intersection epsilon: scattered rays only count hits beyond this
/// distance, so a ray never re-hits its own origin surface.
pub const T_EPSILON: i64 = 65;

/// The depth bound of the radiance recursion.
pub const MAX_DEPTH: u32 = 50;

/// The background: a vertical gradient from white at the horizon's downward
/// side to sky blue at the zenith, interpolated by the normalized ray
/// direction's vertical component.
pub open spec fn sky_s(r: Ray) -> Vec3 {
    let ud: Vec3 = unit_s(r.direction);
    let t: i64 = fmul_s(sadd_s(ud.y, 65536), 32768);
    plus_s(
        scaled_s(Vec3 { x: 65536, y: 65536, z: 65536 }, ssub_s(65536, t)),
        scaled_s(Vec3 { x: 32768, y: 45875, z: 65536 }, t),
    )
}

/// The radiance carried back along a ray: follow material scattering through
/// the nearest hit until a ray is absorbed, the depth bound is reached
/// (black), or the ray escapes the scene (sky gradient). Also yields the
/// random stream state after the scatter draws.
pub open spec fn color_s(r: Ray, scene: Seq<Sphere>, depth: u32, seed: u64) -> (Vec3, u64)
    decreases 50 - depth,
{
    match hit_list_s(scene, r, T_EPSILON, i64::MAX) {
        Some(hm) => {
            let sc: (Ray, Vec3, bool, u64) = scatter_s(hm.1, r, hm.0.normal, hm.0.p, seed);
            if depth < 50 && sc.2 {
                let rec: (Vec3, u64) = color_s(sc.0, scene, (depth + 1) as u32, sc.3);
                (hadamard_s(sc.1, rec.0), rec.1)
            } else {
                (zero_s(), sc.3)
            }
        },
        None => (sky_s(r), seed),
    }
}

/// A nearest-hit query on an all-valid scene hands back a valid material.
pub proof fn lemma_hit_list_wf(
    s: Seq<Sphere>,
    i: int,
    r: Ray,
    t_min: i64,
    closest: i64,
    best: Option<(HitRecord, Material)>,
)
    requires
        forall|j: int| 0 <= j < s.len() ==> (#[trigger] s[j]).wf(),
        best is Some ==> best->Some_0.1.wf(),
    ensures
        hit_list_from(s, i, r, t_min, closest, best) is Some ==> hit_list_from(
            s,
            i,
            r,
            t_min,
            closest,
            best,
        )->Some_0.1.wf(),
    decreases s.len() - i,
{
    if 0 <= i < s.len() {
        match crate::hitable::hit_sphere_s(s[i], r, t_min, closest) {
            Some(h) => {
                lemma_hit_list_wf(s, i + 1, r, t_min, h.t, Some((h, s[i].material)));
            },
            None => {
                lemma_hit_list_wf(s, i + 1, r, t_min, closest, best);
            },
        }
    }
}

/// The background gradient behind a ray.
pub fn sky(r: &Ray) -> (c: Vec3)
    ensures
        c == sky_s(*r),
{
    let ud: Vec3 = r.direction.unit();
    let t: i64 = fmul(sadd(ud.y, 65536), 32768);
    let white: Vec3 = Vec3::new(65536, 65536, 65536);
    let blue: Vec3 = Vec3::new(32768, 45875, 65536);
    white.scaled(ssub(65536, t)).plus(blue.scaled(t))
}

/// The radiance carried back along `r` through the scene, accumulating
/// attenuation recursively up to the fixed depth bound.
pub fn color(r: &Ray, world: &HitableList, depth: u32, rng: &mut RngState) -> (c: Vec3)
    requires
        world.wf(),
    ensures
        c == color_s(*r, world.list@, depth, old(rng).s).0,
        final(rng).s == color_s(*r, world.list@, depth, old(rng).s).1,
    decreases 50 - depth,
{
    match world.hit(r, T_EPSILON, i64::MAX) {
        Some((rec, mat)) => {
            proof {
                lemma_hit_list_wf(world.list@, 0, *r, T_EPSILON, i64::MAX, None);
            }
            let (scattered, attenuation, cont): (Ray, Vec3, bool) = mat.scatter(
                r,
                rec.normal,
                rec.p,
                rng,
            );
            if depth < 50 && cont {
                let rc: Vec3 = color(&scattered, world, depth + 1, rng);
                attenuation.hadamard(rc)
            } else {
                Vec3::zero()
            }
        },
        None => sky(r),
    }
}

/// The integer channel value for an averaged linear color component `c`:
/// clamp to [0, 1], take the gamma-2 square root, scale by the maximum
/// channel value and truncate.
pub open spec fn channel_s(c: i64, max_color: u32) -> u32 {
    let cc: i64 = if c < 0 {
        0
    } else if c > 65536 {
        65536
    } else {
        c
    };
    let g: i64 = fsqrt_s(cc);
    (((max_color as int) * (g as int)) / 65536) as u32
}

/// Map an averaged linear color component to its output channel integer.
pub fn channel(c: i64, max_color: u32) -> (r: u32)
    ensures
        r == channel_s(c, max_color),
        r <= max_color,
{
    let cc: i64 = if c < 0 {
        0
    } else if c > 65536 {
        65536
    } else {
        c
    };
    let g: i64 = fsqrt(cc);
    proof {
        assert(g <= 65536) by (nonlinear_arith)
            requires
                g >= 0,
                g as int * g as int <= cc as int * 65536,
                cc <= 65536,
        ;
        assert((max_color as int * g as int) <= (max_color as int) * 65536) by (nonlinear_arith)
            requires
                g <= 65536,
                max_color >= 0,
        ;
    }
    let p: u64 = (max_color as u64) * (g as u64);
    let q: u64 = p / 65536;
    q as u32
}

/// One jittered sample of pixel `(w, h)`: pick a point uniformly inside the
/// pixel's footprint, trace the camera ray through it, and return its
/// radiance with the stream state afterwards.
pub open spec fn pixel_sample_s(
    world: Seq<Sphere>,
    cam: Camera,
    w: u32,
    h: u32,
    width: u32,
    height: u32,
    seed: u64,
) -> (Vec3, u64) {
    let s1: u64 = crate::rng::next_s(seed);
    let fu: i64 = crate::rng::frac_of(s1);
    let s2: u64 = crate::rng::next_s(s1);
    let fv: i64 = crate::rng::frac_of(s2);
    let u: i64 = fdiv_s(sadd_s(to_fixed_s(w as i64), fu), to_fixed_s(width as i64));
    let v: i64 = fdiv_s(sadd_s(to_fixed_s(h as i64), fv), to_fixed_s(height as i64));
    let gr: (Ray, u64) = get_ray_s(cam, u, v, s2);
    color_s(gr.0, world, 0, gr.1)
}

/// The sum of `n` successive jittered samples of one pixel, folded onto
/// `acc`, with the stream state afterwards.
pub open spec fn sample_acc_s(
    world: Seq<Sphere>,
    cam: Camera,
    w: u32,
    h: u32,
    width: u32,
    height: u32,
    n: nat,
    seed: u64,
    acc: Vec3,
) -> (Vec3, u64)
    decreases n,
{
    if n == 0 {
        (acc, seed)
    } else {
        let smp: (Vec3, u64) = pixel_sample_s(world, cam, w, h, width, height, seed);
        sample_acc_s(
            world,
            cam,
            w,
            h,
            width,
            height,
            (n - 1) as nat,
            smp.1,
            plus_s(acc, smp.0),
        )
    }
}

/// The output channels of pixel `(w, h)`: average `rpp` jittered samples,
/// gamma-correct each component and map it to an integer channel.
pub open spec fn render_pixel_s(
    world: Seq<Sphere>,
    cam: Camera,
    w: u32,
    h: u32,
    width: u32,
    height: u32,
    rpp: u32,
    max_color: u32,
    seed: u64,
) -> ((u32, u32, u32), u64) {
    let tot: (Vec3, u64) = sample_acc_s(world, cam, w, h, width, height, rpp as nat, seed, zero_s());
    let avg: Vec3 = crate::vec3::divided_s(tot.0, to_fixed_s(rpp as i64));
    (
        (channel_s(avg.x, max_color), channel_s(avg.y, max_color), channel_s(avg.z, max_color)),
        tot.1,
    )
}

/// Render one pixel: `rpp` jittered samples through the camera, averaged,
/// gamma-corrected and mapped to integer channels.
pub fn render_pixel(
    world: &HitableList,
    cam: &Camera,
    w: u32,
    h: u32,
    width: u32,
    height: u32,
    rpp: u32,
    max_color: u32,
    rng: &mut RngState,
) -> (px: (u32, u32, u32))
    requires
        world.wf(),
        width > 0,
        height > 0,
        rpp > 0,
    ensures
        px == render_pixel_s(world.list@, *cam, w, h, width, height, rpp, max_color, old(rng).s).0,
        final(rng).s == render_pixel_s(
            world.list@,
            *cam,
            w,
            h,
            width,
            height,
            rpp,
            max_color,
            old(rng).s,
        ).1,
{
    let wf: i64 = to_fixed(w as i64);
    let widthf: i64 = to_fixed(width as i64);
    let hf: i64 = to_fixed(h as i64);
    let heightf: i64 = to_fixed(height as i64);
    let mut col: Vec3 = Vec3::zero();
    let mut i: u32 = 0;
    while i < rpp
        invariant
            world.wf(),
            width > 0,
            height > 0,
            0 <= i <= rpp,
            wf == to_fixed_s(w as i64),
            widthf == to_fixed_s(width as i64),
            hf == to_fixed_s(h as i64),
            heightf == to_fixed_s(height as i64),
            sample_acc_s(world.list@, *cam, w, h, width, height, (rpp - i) as nat, rng.s, col)
                == sample_acc_s(
                world.list@,
                *cam,
                w,
                h,
                width,
                height,
                rpp as nat,
                old(rng).s,
                zero_s(),
            ),
        decreases rpp - i,
    {
        let fu: i64 = rng.unit_frac();
        let fv: i64 = rng.unit_frac();
        let u: i64 = fdiv(sadd(wf, fu), widthf);
        let v: i64 = fdiv(sadd(hf, fv), heightf);
        let r: Ray = cam.get_ray(u, v, rng);
        let c: Vec3 = color(&r, world, 0, rng);
        col = col.plus(c);
        i = i + 1;
    }
    let avg: Vec3 = col.divided(to_fixed(rpp as i64));
    (channel(avg.x, max_color), channel(avg.y, max_color), channel(avg.z, max_color))
}

/// The pixels of one scanline from column `w` on, appended to `acc`,
/// with the stream state afterwards.
pub open spec fn row_acc_s(
    world: Seq<Sphere>,
    cam: Camera,
    h: u32,
    width: u32,
    height: u32,
    rpp: u32,
    max_color: u32,
    w: nat,
    seed: u64,
    acc: Seq<(u32, u32, u32)>,
) -> (Seq<(u32, u32, u32)>, u64)
    decreases width - w,
{
    if w >= width {
        (acc, seed)
    } else {
        let px: ((u32, u32, u32), u64) = render_pixel_s(
            world,
            cam,
            w as u32,
            h,
            width,
            height,
            rpp,
            max_color,
            seed,
        );
        row_acc_s(world, cam, h, width, height, rpp, max_color, w + 1, px.1, acc.push(px.0))
    }
}

/// The whole scanline `h`, rendered left to right by one task-owned stream
/// started from `seed`.
pub open spec fn render_row_s(
    world: Seq<Sphere>,
    cam: Camera,
    h: u32,
    width: u32,
    height: u32,
    rpp: u32,
    max_color: u32,
    seed: u64,
) -> Seq<(u32, u32, u32)> {
    row_acc_s(
        world,
        cam,
        h,
        width,
        height,
        rpp,
        max_color,
        0,
        crate::rng::init_s(seed),
        Seq::empty(),
    ).0
}

/// Render one scanline with its own sample stream started from `seed`.
/// Scanlines are independent, so callers may run them in parallel and order
/// the results by row index.
pub fn render_row(
    world: &HitableList,
    cam: &Camera,
    h: u32,
    width: u32,
    height: u32,
    rpp: u32,
    max_color: u32,
    seed: u64,
) -> (row: Vec<(u32, u32, u32)>)
    requires
        world.wf(),
        width > 0,
        height > 0,
        rpp > 0,
    ensures
        row@ == render_row_s(world.list@, *cam, h, width, height, rpp, max_color, seed),
        row@.len() == width,
{
    let mut rng: RngState = RngState::new(seed);
    let mut row: Vec<(u32, u32, u32)> = Vec::new();
    let mut w: u32 = 0;
    while w < width
        invariant
            world.wf(),
            width > 0,
            height > 0,
            rpp > 0,
            0 <= w <= width,
            row@.len() == w,
            row_acc_s(
                world.list@,
                *cam,
                h,
                width,
                height,
                rpp,
                max_color,
                w as nat,
                rng.s,
                row@,
            ) == row_acc_s(
                world.list@,
                *cam,
                h,
                width,
                height,
                rpp,
                max_color,
                0,
                crate::rng::init_s(seed),
                Seq::empty(),
            ),
        decreases width - w,
    {
        let px: (u32, u32, u32) = render_pixel(world, cam, w, h, width, height, rpp, max_color, &mut rng);
        row.push(px);
        w = w + 1;
    }
    row
}

/// The seed of the stream a row-rendering task owns, derived from one base
/// seed and the row index, so tasks draw independent streams.
pub open spec fn row_seed_s(base: u64, row: u32) -> u64 {
    crate::rng::next_s(crate::rng::init_s(base ^ (row as u64)))
}

/// Derive a row task's stream seed from the render's base seed.
pub fn row_seed(base: u64, row: u32) -> (s: u64)
    ensures
        s == row_seed_s(base, row),
{
    let m: u64 = base ^ (row as u64);
    let mut st: RngState = RngState::new(m);
    st.next()
}

/// Rendering is deterministic: a scanline is a function of the scene, the
/// camera, the image geometry, the sample count and the task's seed alone,
/// so repeated renders from the same seeds are bit-identical.
pub proof fn law_render_deterministic(
    world: Seq<Sphere>,
    cam: Camera,
    h: u32,
    width: u32,
    height: u32,
    rpp: u32,
    max_color: u32,
    seed1: u64,
    seed2: u64,
)
    requires
        seed1 == seed2,
    ensures
        render_row_s(world, cam, h, width, height, rpp, max_color, seed1) == render_row_s(
            world,
            cam,
            h,
            width,
            height,
            rpp,
            max_color,
            seed2,
        ),
{
}

/// A ray that hits nothing is colored by the sky gradient alone, at every
/// recursion depth and whatever the random stream holds.
pub proof fn law_escaped_ray_color(r: Ray, scene: Seq<Sphere>, depth: u32, seed: u64)
    requires
        hit_list_s(scene, r, T_EPSILON, i64::MAX) is None,
    ensures
        color_s(r, scene, depth, seed).0 == sky_s(r),
        color_s(r, scene, depth, seed).1 == seed,
{
}

/// The sky color is determined solely by the normalized ray direction's
/// vertical component: two escaped rays whose unit directions share a
/// vertical component are colored identically.
pub proof fn law_sky_depends_on_vertical(r1: Ray, r2: Ray)
    requires
        unit_s(r1.direction).y == unit_s(r2.direction).y,
    ensures
        sky_s(r1) == sky_s(r2),
{
}

/// Gamma correction maps the black endpoint to channel 0 and the white
/// endpoint to the maximum channel value.
pub proof fn law_gamma_endpoints(max_color: u32)
    ensures
        channel_s(0, max_color) == 0,
        channel_s(65536, max_color) == max_color,
{
    crate::fixed::lemma_isqrt_perfect(0);
    crate::fixed::lemma_isqrt_perfect(65536);
    assert(65536int * 65536int == 0x100000000int) by (nonlinear_arith);
    let g0: int = fsqrt_s(0) as int;
    assert(g0 == 0);
    assert((max_color as int) * g0 == 0) by (nonlinear_arith)
        requires
            g0 == 0,
    ;
    let g1: int = fsqrt_s(65536) as int;
    assert(g1 == 65536);
    assert((max_color as int) * g1 / 65536 == max_color as int) by (nonlinear_arith)
        requires
            g1 == 65536,
            max_color >= 0,
    ;
}

} // verus!
