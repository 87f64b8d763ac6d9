//! Concrete L-systems: curves and trees.
//!
//! The curves and the two simpler trees are deterministic: their
//! executable rules return exactly their mathematical rules. The round
//! tree draws random jitter for its angles; its contracts state the
//! exact shape of every production and the bounds every drawn angle
//! obeys.

use vstd::prelude::*;

use crate::fixed::{fx_div_int, fx_mul_int, fx_mul_ratio, fx_neg, fxb, spec_from_degrees,
    spec_from_int, spec_to_radians, Fx, FX_PI};
use crate::lsystem::{branch, branch_apex, custom, custom_none, euler, pitch, pop, push, roll,
    segment_cmd, trunk, trunk_apex, yaw, LSystem, Module};
use crate::rand_util::{random_lohi, random_max};

verus! {

/// The golden ratio as the exact rational 161803398875 / 10^11.
pub open spec fn spec_phi_times(deg: int) -> Fx {
    spec_to_radians(fx_mul_ratio(fx_clamp_int(deg), 161803398875, 100000000000))
}

/// `1 / phi` of a whole turn of `deg` degrees, in radians.
pub open spec fn spec_phi_recip_times(deg: int) -> Fx {
    spec_to_radians(fx_mul_ratio(fx_clamp_int(deg), 61803398875, 100000000000))
}

/// `1 - 1 / phi` of a whole turn of `deg` degrees, in radians.
pub open spec fn spec_phi_complement_times(deg: int) -> Fx {
    spec_to_radians(fx_mul_ratio(fx_clamp_int(deg), 38196601125, 100000000000))
}

/// The fixed-point units of the whole number `n`.
pub open spec fn fx_clamp_int(n: int) -> int {
    spec_from_int(n)@
}

/// `deg` degrees scaled by the golden ratio, as an executable angle.
fn phi_times(deg: i64) -> (r: Fx)
    ensures
        r == spec_phi_times(deg as int),
{
    Fx::from_int(deg).mul_ratio(161803398875, 100000000000).to_radians()
}

fn phi_recip_times(deg: i64) -> (r: Fx)
    ensures
        r == spec_phi_recip_times(deg as int),
{
    Fx::from_int(deg).mul_ratio(61803398875, 100000000000).to_radians()
}

fn phi_complement_times(deg: i64) -> (r: Fx)
    ensures
        r == spec_phi_complement_times(deg as int),
{
    Fx::from_int(deg).mul_ratio(38196601125, 100000000000).to_radians()
}

/// A Koch-style curve: each branch splits into four thirds-length
/// branches turned by sixty degrees.
#[derive(Clone, Copy)]
pub struct KochCurve;

impl LSystem for KochCurve {
    type Module = Module;

    open spec fn spec_axiom(&self) -> Seq<Module> {
        seq![
            Module::Branch { w: spec_from_int(1), l: spec_from_int(27), life: 1 },
            Module::Pitch { r: spec_from_degrees(-120) },
            Module::Branch { w: spec_from_int(1), l: spec_from_int(27), life: 1 },
            Module::Pitch { r: spec_from_degrees(-120) },
            Module::Branch { w: spec_from_int(1), l: spec_from_int(27), life: 1 },
        ]
    }

    open spec fn axiom_rel(&self, w: Seq<Module>) -> bool {
        w == self.spec_axiom()
    }

    open spec fn spec_produce(&self, m: Module) -> Seq<Module> {
        match m {
            Module::Branch { w, l, life } => seq![
                Module::Branch { w, l: fxb(fx_div_int(l@, 3)), life },
                Module::Pitch { r: spec_from_degrees(60) },
                Module::Branch { w, l: fxb(fx_div_int(l@, 3)), life },
                Module::Pitch { r: spec_from_degrees(-120) },
                Module::Branch { w, l: fxb(fx_div_int(l@, 3)), life },
                Module::Pitch { r: spec_from_degrees(60) },
                Module::Branch { w, l: fxb(fx_div_int(l@, 3)), life },
            ],
            _ => seq![m],
        }
    }

    open spec fn produce_rel(&self, m: Module, out: Seq<Module>) -> bool {
        out == self.spec_produce(m)
    }

    open spec fn is_deterministic(&self) -> bool {
        true
    }

    fn seed(&self) -> (w: Vec<Module>) {
        let b = branch(Fx::from_int(1), Fx::from_int(27), 1);
        let p = pitch(Fx::from_degrees(-120));
        let out = vec![b, p, b, p, b];
        proof {
            assert(out@ =~= self.spec_axiom());
        }
        out
    }

    fn produce(&self, module: Module) -> (out: Vec<Module>) {
        match module {
            Module::Branch { w, l, life } => {
                let third = l.div_int(3);
                let p60 = pitch(Fx::from_degrees(60));
                let m120 = pitch(Fx::from_degrees(-120));
                let out = vec![
                    branch(w, third, life),
                    p60,
                    branch(w, third, life),
                    m120,
                    branch(w, third, life),
                    p60,
                    branch(w, third, life),
                ];
                proof {
                    assert(out@ =~= self.spec_produce(module));
                }
                out
            },
            _ => {
                let out = vec![module];
                proof {
                    assert(out@ =~= self.spec_produce(module));
                }
                out
            },
        }
    }
}

/// The dragon curve over two custom symbols that both draw a unit
/// segment.
#[derive(Clone, Copy)]
pub struct DragonCurve;

impl LSystem for DragonCurve {
    type Module = Module;

    open spec fn spec_axiom(&self) -> Seq<Module> {
        seq![
            Module::Custom(
                1,
                crate::lsystem::DrawCommand::Segment {
                    w: spec_from_int(1),
                    l: spec_from_int(1),
                },
            ),
        ]
    }

    open spec fn axiom_rel(&self, w: Seq<Module>) -> bool {
        w == self.spec_axiom()
    }

    open spec fn spec_produce(&self, m: Module) -> Seq<Module> {
        match m {
            Module::Custom(tag, _) => if tag == 1 {
                seq![
                    Module::Custom(
                        1,
                        crate::lsystem::DrawCommand::Segment {
                            w: spec_from_int(1),
                            l: spec_from_int(1),
                        },
                    ),
                    Module::Roll { r: spec_from_degrees(-90) },
                    Module::Custom(
                        2,
                        crate::lsystem::DrawCommand::Segment {
                            w: spec_from_int(1),
                            l: spec_from_int(1),
                        },
                    ),
                ]
            } else if tag == 2 {
                seq![
                    Module::Custom(
                        1,
                        crate::lsystem::DrawCommand::Segment {
                            w: spec_from_int(1),
                            l: spec_from_int(1),
                        },
                    ),
                    Module::Roll { r: spec_from_degrees(90) },
                    Module::Custom(
                        2,
                        crate::lsystem::DrawCommand::Segment {
                            w: spec_from_int(1),
                            l: spec_from_int(1),
                        },
                    ),
                ]
            } else {
                seq![m]
            },
            _ => seq![m],
        }
    }

    open spec fn produce_rel(&self, m: Module, out: Seq<Module>) -> bool {
        out == self.spec_produce(m)
    }

    open spec fn is_deterministic(&self) -> bool {
        true
    }

    fn seed(&self) -> (w: Vec<Module>) {
        let seg = segment_cmd(Fx::from_int(1), Fx::from_int(1));
        let out = vec![custom(1, seg)];
        proof {
            assert(out@ =~= self.spec_axiom());
        }
        out
    }

    fn produce(&self, module: Module) -> (out: Vec<Module>) {
        match module {
            Module::Custom(tag, _) => {
                if tag == 1 {
                    let seg = segment_cmd(Fx::from_int(1), Fx::from_int(1));
                    let out = vec![custom(1, seg), roll(Fx::from_degrees(-90)), custom(2, seg)];
                    proof {
                        assert(out@ =~= self.spec_produce(module));
                    }
                    out
                } else if tag == 2 {
                    let seg = segment_cmd(Fx::from_int(1), Fx::from_int(1));
                    let out = vec![custom(1, seg), roll(Fx::from_degrees(90)), custom(2, seg)];
                    proof {
                        assert(out@ =~= self.spec_produce(module));
                    }
                    out
                } else {
                    let out = vec![module];
                    proof {
                        assert(out@ =~= self.spec_produce(module));
                    }
                    out
                }
            },
            _ => {
                let out = vec![module];
                proof {
                    assert(out@ =~= self.spec_produce(module));
                }
                out
            },
        }
    }
}

/// A simple tree: a trunk apex sprouts two rolled side branches and
/// keeps climbing; branches elongate by fifteen percent each round.
#[derive(Clone, Copy)]
pub struct BasicTree;

impl LSystem for BasicTree {
    type Module = Module;

    open spec fn spec_axiom(&self) -> Seq<Module> {
        seq![
            Module::Branch { w: spec_from_int(1), l: spec_from_int(2), life: 1 },
            Module::TrunkApex { life: 0 },
        ]
    }

    open spec fn axiom_rel(&self, w: Seq<Module>) -> bool {
        w == self.spec_axiom()
    }

    open spec fn spec_produce(&self, m: Module) -> Seq<Module> {
        match m {
            Module::Branch { w, l, life } => seq![
                Module::Branch { w, l: fxb(fx_mul_ratio(l@, 115, 100)), life },
            ],
            Module::TrunkApex { .. } => seq![
                Module::Push,
                Module::Roll { r: spec_from_degrees(30) },
                Module::Branch { w: spec_from_int(1), l: spec_from_int(1), life: 1 },
                Module::Custom(2, crate::lsystem::DrawCommand::Idle),
                Module::Pop,
                Module::Push,
                Module::Roll { r: spec_from_degrees(-30) },
                Module::Branch { w: spec_from_int(1), l: spec_from_int(1), life: 1 },
                Module::Custom(3, crate::lsystem::DrawCommand::Idle),
                Module::Pop,
                Module::Branch { w: spec_from_int(1), l: spec_from_int(1), life: 1 },
                Module::Yaw { r: spec_from_degrees(60) },
                Module::TrunkApex { life: 0 },
            ],
            Module::Custom(tag, _) => if tag == 2 {
                seq![
                    Module::Roll { r: spec_from_degrees(25) },
                    Module::Branch { w: spec_from_int(1), l: spec_from_int(1), life: 1 },
                    Module::Custom(2, crate::lsystem::DrawCommand::Idle),
                ]
            } else if tag == 3 {
                seq![
                    Module::Roll { r: spec_from_degrees(-25) },
                    Module::Branch { w: spec_from_int(1), l: spec_from_int(1), life: 1 },
                    Module::Custom(3, crate::lsystem::DrawCommand::Idle),
                ]
            } else {
                seq![m]
            },
            _ => seq![m],
        }
    }

    open spec fn produce_rel(&self, m: Module, out: Seq<Module>) -> bool {
        out == self.spec_produce(m)
    }

    open spec fn is_deterministic(&self) -> bool {
        true
    }

    fn seed(&self) -> (w: Vec<Module>) {
        let out = vec![branch(Fx::from_int(1), Fx::from_int(2), 1), trunk_apex(0)];
        proof {
            assert(out@ =~= self.spec_axiom());
        }
        out
    }

    fn produce(&self, module: Module) -> (out: Vec<Module>) {
        match module {
            Module::Branch { w, l, life } => {
                let out = vec![branch(w, l.mul_ratio(115, 100), life)];
                proof {
                    assert(out@ =~= self.spec_produce(module));
                }
                out
            },
            Module::TrunkApex { .. } => {
                let unit = Fx::from_int(1);
                let out = vec![
                    push(),
                    roll(Fx::from_degrees(30)),
                    branch(unit, unit, 1),
                    custom_none(2),
                    pop(),
                    push(),
                    roll(Fx::from_degrees(-30)),
                    branch(unit, unit, 1),
                    custom_none(3),
                    pop(),
                    branch(unit, unit, 1),
                    yaw(Fx::from_degrees(60)),
                    trunk_apex(0),
                ];
                proof {
                    assert(out@ =~= self.spec_produce(module));
                }
                out
            },
            Module::Custom(tag, _) => {
                if tag == 2 {
                    let unit = Fx::from_int(1);
                    let out = vec![
                        roll(Fx::from_degrees(25)),
                        branch(unit, unit, 1),
                        custom_none(2),
                    ];
                    proof {
                        assert(out@ =~= self.spec_produce(module));
                    }
                    out
                } else if tag == 3 {
                    let unit = Fx::from_int(1);
                    let out = vec![
                        roll(Fx::from_degrees(-25)),
                        branch(unit, unit, 1),
                        custom_none(3),
                    ];
                    proof {
                        assert(out@ =~= self.spec_produce(module));
                    }
                    out
                } else {
                    let out = vec![module];
                    proof {
                        assert(out@ =~= self.spec_produce(module));
                    }
                    out
                }
            },
            _ => {
                let out = vec![module];
                proof {
                    assert(out@ =~= self.spec_produce(module));
                }
                out
            },
        }
    }
}

/// A tree that forks at golden-ratio yaw angles, with widths and
/// lengths growing while a branch still has life.
#[derive(Clone, Copy)]
pub struct BranchingTree {
    pub base_width: Fx,
    pub base_length: Fx,
}

impl LSystem for BranchingTree {
    type Module = Module;

    open spec fn spec_axiom(&self) -> Seq<Module> {
        seq![
            Module::Trunk {
                w: self.base_width,
                l: fxb(fx_mul_int(self.base_length@, 2)),
                life: 5,
            },
            Module::TrunkApex { life: 0 },
        ]
    }

    open spec fn axiom_rel(&self, w: Seq<Module>) -> bool {
        w == self.spec_axiom()
    }

    open spec fn spec_produce(&self, m: Module) -> Seq<Module> {
        match m {
            Module::Branch { w, l, life } => if life > 0 {
                seq![
                    Module::Branch {
                        w: fxb(fx_mul_ratio(w@, 13, 10)),
                        l: fxb(fx_mul_ratio(l@, 13, 10)),
                        life: (life - 1) as u8,
                    },
                ]
            } else {
                seq![Module::Branch { w, l, life: 0 }]
            },
            Module::Trunk { w, l, life } => if life > 0 {
                seq![
                    Module::Branch {
                        w: fxb(fx_mul_ratio(w@, 13, 10)),
                        l: fxb(fx_mul_ratio(l@, 13, 10)),
                        life: (life - 1) as u8,
                    },
                ]
            } else {
                seq![Module::Branch { w, l, life: 0 }]
            },
            Module::TrunkApex { .. } => seq![
                Module::Push,
                Module::Roll { r: spec_from_degrees(-30) },
                Module::Trunk { w: self.base_width, l: self.base_length, life: 3 },
                Module::Custom(1, crate::lsystem::DrawCommand::Idle),
                Module::Pop,
                Module::Push,
                Module::Roll { r: spec_from_degrees(30) },
                Module::Branch { w: self.base_width, l: self.base_length, life: 3 },
                Module::Custom(1, crate::lsystem::DrawCommand::Idle),
                Module::Pop,
                Module::Yaw { r: spec_phi_recip_times(360) },
                Module::Branch { w: self.base_width, l: self.base_length, life: 3 },
                Module::TrunkApex { life: 0 },
            ],
            Module::Custom(tag, _) => if tag == 1 {
                seq![
                    Module::Push,
                    Module::Roll { r: spec_from_degrees(-30) },
                    Module::Branch {
                        w: self.base_width,
                        l: fxb(fx_mul_ratio(self.base_length@, 85, 100)),
                        life: 2,
                    },
                    Module::Pop,
                    Module::Push,
                    Module::Roll { r: spec_from_degrees(30) },
                    Module::Branch {
                        w: self.base_width,
                        l: fxb(fx_mul_ratio(self.base_length@, 85, 100)),
                        life: 2,
                    },
                    Module::Pop,
                    Module::Yaw { r: spec_phi_complement_times(360) },
                    Module::Branch {
                        w: self.base_width,
                        l: fxb(fx_mul_ratio(self.base_length@, 85, 100)),
                        life: 2,
                    },
                    Module::Custom(1, crate::lsystem::DrawCommand::Idle),
                ]
            } else {
                seq![m]
            },
            _ => seq![m],
        }
    }

    open spec fn produce_rel(&self, m: Module, out: Seq<Module>) -> bool {
        out == self.spec_produce(m)
    }

    open spec fn is_deterministic(&self) -> bool {
        true
    }

    fn seed(&self) -> (w: Vec<Module>) {
        let out = vec![trunk(self.base_width, self.base_length.mul_int(2), 5), trunk_apex(0)];
        proof {
            assert(out@ =~= self.spec_axiom());
        }
        out
    }

    fn produce(&self, module: Module) -> (out: Vec<Module>) {
        match module {
            Module::Branch { w, l, life } => {
                let out = if life > 0 {
                    vec![branch(w.mul_ratio(13, 10), l.mul_ratio(13, 10), life - 1)]
                } else {
                    vec![branch(w, l, 0)]
                };
                proof {
                    assert(out@ =~= self.spec_produce(module));
                }
                out
            },
            Module::Trunk { w, l, life } => {
                let out = if life > 0 {
                    vec![branch(w.mul_ratio(13, 10), l.mul_ratio(13, 10), life - 1)]
                } else {
                    vec![branch(w, l, 0)]
                };
                proof {
                    assert(out@ =~= self.spec_produce(module));
                }
                out
            },
            Module::TrunkApex { .. } => {
                let out = vec![
                    push(),
                    roll(Fx::from_degrees(-30)),
                    trunk(self.base_width, self.base_length, 3),
                    custom_none(1),
                    pop(),
                    push(),
                    roll(Fx::from_degrees(30)),
                    branch(self.base_width, self.base_length, 3),
                    custom_none(1),
                    pop(),
                    yaw(phi_recip_times(360)),
                    branch(self.base_width, self.base_length, 3),
                    trunk_apex(0),
                ];
                proof {
                    assert(out@ =~= self.spec_produce(module));
                }
                out
            },
            Module::Custom(tag, _) => {
                if tag == 1 {
                    let short = self.base_length.mul_ratio(85, 100);
                    let out = vec![
                        push(),
                        roll(Fx::from_degrees(-30)),
                        branch(self.base_width, short, 2),
                        pop(),
                        push(),
                        roll(Fx::from_degrees(30)),
                        branch(self.base_width, short, 2),
                        pop(),
                        yaw(phi_complement_times(360)),
                        branch(self.base_width, short, 2),
                        custom_none(1),
                    ];
                    proof {
                        assert(out@ =~= self.spec_produce(module));
                    }
                    out
                } else {
                    let out = vec![module];
                    proof {
                        assert(out@ =~= self.spec_produce(module));
                    }
                    out
                }
            },
            _ => {
                let out = vec![module];
                proof {
                    assert(out@ =~= self.spec_produce(module));
                }
                out
            },
        }
    }
}

/// Jitter cap on the seed orientation: pi over thirty-two radians.
pub open spec fn seed_rot_cap() -> int {
    fx_div_int(FX_PI as int, 32)
}

/// Jitter cap on trunk growth: pi over two hundred radians.
pub open spec fn trunk_rot_cap() -> int {
    fx_div_int(FX_PI as int, 200)
}

/// Smallest branching angle: a quarter pi.
pub open spec fn branch_angle_min() -> int {
    fx_div_int(FX_PI as int, 4)
}

/// Largest branching angle: a third of pi.
pub open spec fn branch_angle_max() -> int {
    fx_div_int(FX_PI as int, 3)
}

/// Jitter cap on branch orientation: pi over eight radians.
pub open spec fn branch_rot_cap() -> int {
    fx_div_int(FX_PI as int, 8)
}

/// The module is an Euler rotation with every component in `[0, cap]`.
pub open spec fn euler_within(m: Module, cap: int) -> bool {
    match m {
        Module::Euler { x, y, z } => 0 <= x@ <= cap && 0 <= y@ <= cap && 0 <= z@ <= cap,
        _ => false,
    }
}

/// The module is an Euler rotation with x and z in `[lo, hi]` and no y.
pub open spec fn euler_xz_within(m: Module, lo: int, hi: int) -> bool {
    match m {
        Module::Euler { x, y, z } => lo <= x@ <= hi && y@ == 0 && lo <= z@ <= hi,
        _ => false,
    }
}

/// The module is a roll whose angle lies in `[lo, hi]`.
pub open spec fn roll_within(m: Module, lo: int, hi: int) -> bool {
    match m {
        Module::Roll { r } => lo <= r@ <= hi,
        _ => false,
    }
}

/// The module is a roll whose angle is some degree value in
/// `[dlo, dhi]` converted to radians, negated when `negated` says so.
pub open spec fn roll_from_degrees_within(m: Module, dlo: int, dhi: int, negated: bool) -> bool {
    match m {
        Module::Roll { r } => exists|d: int|
            #![trigger spec_to_radians(d)]
            dlo <= d <= dhi && r == (if negated {
                fxb(fx_neg(spec_to_radians(d)@))
            } else {
                spec_to_radians(d)
            }),
        _ => false,
    }
}

/// A rounded tree: golden-angle phyllotaxis with random jitter on every
/// orientation, foliage blobs at the branch apexes. Its rule draws
/// random angles, so its contracts pin the exact shape of each
/// production and the bounds every drawn angle obeys.
#[derive(Clone, Copy)]
pub struct RoundTree {
    pub base_width: Fx,
    pub trunk_base_length: Fx,
    pub branch_base_length: Fx,
    pub base_foliage_radius: Fx,
    pub base_foliage_length: Fx,
}

impl LSystem for RoundTree {
    type Module = Module;

    /// Unused: this system is not deterministic, so only `axiom_rel`
    /// binds the executable seed.
    open spec fn spec_axiom(&self) -> Seq<Module> {
        Seq::empty()
    }

    open spec fn axiom_rel(&self, w: Seq<Module>) -> bool {
        &&& w.len() == 3
        &&& euler_within(w[0], seed_rot_cap())
        &&& w[1] == (Module::Trunk { w: self.base_width, l: self.trunk_base_length, life: 0 })
        &&& w[2] == (Module::TrunkApex { life: 0 })
    }

    /// Unused: this system is not deterministic, so only `produce_rel`
    /// binds the executable rule.
    open spec fn spec_produce(&self, m: Module) -> Seq<Module> {
        seq![m]
    }

    open spec fn produce_rel(&self, m: Module, out: Seq<Module>) -> bool {
        match m {
            Module::Trunk { w, l, life } => {
                &&& out.len() == 3
                &&& out[0] == (Module::Trunk { w, l: fxb(fx_mul_ratio(l@, 12, 10)), life })
                &&& euler_within(out[1], trunk_rot_cap())
                &&& out[2] == (Module::Trunk { w, l: self.trunk_base_length, life: 0 })
            },
            Module::Branch { w, l, life } => if life > 0 {
                out == seq![
                    Module::Branch {
                        w,
                        l: fxb(fx_mul_ratio(l@, 11, 10)),
                        life: (life - 1) as u8,
                    },
                ]
            } else {
                out == seq![m]
            },
            Module::TrunkApex { .. } => {
                &&& out.len() == 13
                &&& out[0] == (Module::Yaw { r: spec_phi_times(30) })
                &&& out[1] == Module::Push
                &&& roll_within(out[2], -branch_angle_max(), -branch_angle_min())
                &&& out[3] == (Module::Branch {
                    w: self.base_width,
                    l: self.branch_base_length,
                    life: 4,
                })
                &&& out[4] == (Module::BranchApex {
                    r: self.base_foliage_radius,
                    l: self.base_foliage_length,
                    life: 4,
                })
                &&& out[5] == Module::Pop
                &&& out[6] == Module::Push
                &&& roll_within(out[7], branch_angle_min(), branch_angle_max())
                &&& out[8] == out[3]
                &&& out[9] == out[4]
                &&& out[10] == Module::Pop
                &&& out[11] == (Module::Trunk {
                    w: self.base_width,
                    l: self.trunk_base_length,
                    life: 0,
                })
                &&& out[12] == (Module::TrunkApex { life: 0 })
            },
            Module::BranchApex { life, .. } => if life > 0 {
                &&& out.len() == 15
                &&& out[0] == (Module::Yaw { r: spec_phi_times(360) })
                &&& out[1] == Module::Push
                &&& roll_from_degrees_within(out[2], fx_clamp_int(25), fx_clamp_int(30), false)
                &&& euler_xz_within(out[3], -branch_rot_cap(), branch_rot_cap())
                &&& out[4] == (Module::Branch {
                    w: self.base_width,
                    l: self.branch_base_length,
                    life: 3,
                })
                &&& out[5] == (Module::BranchApex {
                    r: self.base_foliage_radius,
                    l: self.base_foliage_length,
                    life: 2,
                })
                &&& out[6] == Module::Pop
                &&& out[7] == Module::Push
                &&& roll_from_degrees_within(out[8], fx_clamp_int(25), fx_clamp_int(30), true)
                &&& euler_xz_within(out[9], -branch_rot_cap(), branch_rot_cap())
                &&& out[10] == out[4]
                &&& out[11] == out[5]
                &&& out[12] == Module::Pop
                &&& out[13] == out[4]
                &&& out[14] == (Module::BranchApex {
                    r: self.base_foliage_radius,
                    l: self.base_foliage_length,
                    life: (life - 1) as u8,
                })
            } else {
                out == Seq::<Module>::empty()
            },
            _ => out == seq![m],
        }
    }

    open spec fn is_deterministic(&self) -> bool {
        false
    }

    fn seed(&self) -> (w: Vec<Module>) {
        let cap = Fx::from_bits(FX_PI).div_int(32);
        let e = euler(random_max(cap), random_max(cap), random_max(cap));
        let out = vec![e, trunk(self.base_width, self.trunk_base_length, 0), trunk_apex(0)];
        proof {
            assert(euler_within(out@[0], seed_rot_cap()));
        }
        out
    }

    fn produce(&self, module: Module) -> (out: Vec<Module>) {
        match module {
            Module::Trunk { w, l, life } => {
                let cap = Fx::from_bits(FX_PI).div_int(200);
                let e = euler(random_max(cap), random_max(cap), random_max(cap));
                let out = vec![
                    trunk(w, l.mul_ratio(12, 10), life),
                    e,
                    trunk(w, self.trunk_base_length, 0),
                ];
                proof {
                    assert(euler_within(out@[1], trunk_rot_cap()));
                }
                out
            },
            Module::Branch { w, l, life } => {
                let out = if life > 0 {
                    vec![branch(w, l.mul_ratio(11, 10), life - 1)]
                } else {
                    vec![module]
                };
                proof {
                    if life > 0 {
                        assert(out@ =~= seq![
                            Module::Branch {
                                w,
                                l: fxb(fx_mul_ratio(l@, 11, 10)),
                                life: (life - 1) as u8,
                            },
                        ]);
                    } else {
                        assert(out@ =~= seq![module]);
                    }
                }
                out
            },
            Module::TrunkApex { .. } => {
                let angle_lo = Fx::from_bits(FX_PI).div_int(4);
                let angle_hi = Fx::from_bits(FX_PI).div_int(3);
                let left = random_lohi(angle_lo, angle_hi).neg();
                let right = random_lohi(angle_lo, angle_hi);
                let limb = branch(self.base_width, self.branch_base_length, 4);
                let apex = branch_apex(self.base_foliage_radius, self.base_foliage_length, 4);
                let out = vec![
                    yaw(phi_times(30)),
                    push(),
                    roll(left),
                    limb,
                    apex,
                    pop(),
                    push(),
                    roll(right),
                    limb,
                    apex,
                    pop(),
                    trunk(self.base_width, self.trunk_base_length, 0),
                    trunk_apex(0),
                ];
                proof {
                    assert(roll_within(out@[2], -branch_angle_max(), -branch_angle_min()));
                    assert(roll_within(out@[7], branch_angle_min(), branch_angle_max()));
                }
                out
            },
            Module::BranchApex { life, .. } => {
                if life > 0 {
                    let rot_cap = Fx::from_bits(FX_PI).div_int(8);
                    let rot_lo = rot_cap.neg();
                    let deg1 = random_lohi(Fx::from_int(25), Fx::from_int(30));
                    let deg2 = random_lohi(Fx::from_int(25), Fx::from_int(30));
                    let jig1 = euler(
                        random_lohi(rot_lo, rot_cap),
                        Fx::zero(),
                        random_lohi(rot_lo, rot_cap),
                    );
                    let jig2 = euler(
                        random_lohi(rot_lo, rot_cap),
                        Fx::zero(),
                        random_lohi(rot_lo, rot_cap),
                    );
                    let limb = branch(self.base_width, self.branch_base_length, 3);
                    let apex = branch_apex(self.base_foliage_radius, self.base_foliage_length, 2);
                    let out = vec![
                        yaw(phi_times(360)),
                        push(),
                        roll(deg1.to_radians()),
                        jig1,
                        limb,
                        apex,
                        pop(),
                        push(),
                        roll(deg2.to_radians().neg()),
                        jig2,
                        limb,
                        apex,
                        pop(),
                        limb,
                        branch_apex(
                            self.base_foliage_radius,
                            self.base_foliage_length,
                            life - 1,
                        ),
                    ];
                    proof {
                        assert(spec_to_radians(deg1@) == spec_to_radians(deg1@));
                        assert(roll_from_degrees_within(
                            out@[2],
                            fx_clamp_int(25),
                            fx_clamp_int(30),
                            false,
                        ));
                        assert(spec_to_radians(deg2@) == spec_to_radians(deg2@));
                        assert(roll_from_degrees_within(
                            out@[8],
                            fx_clamp_int(25),
                            fx_clamp_int(30),
                            true,
                        ));
                        assert(euler_xz_within(out@[3], -branch_rot_cap(), branch_rot_cap()));
                        assert(euler_xz_within(out@[9], -branch_rot_cap(), branch_rot_cap()));
                    }
                    out
                } else {
                    let out: Vec<Module> = Vec::new();
                    proof {
                        assert(out@ =~= Seq::<Module>::empty());
                    }
                    out
                }
            },
            _ => {
                let out = vec![module];
                proof {
                    assert(out@ =~= seq![module]);
                }
                out
            },
        }
    }
}

} // verus!
