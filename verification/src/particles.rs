//! The exhaust-particle pool: a fixed-size arena where a dead slot is
//! recycled for each spawn.  The random decay and jitter of a particle's
//! drift are drawn outside and handed in as plain values.

use vstd::prelude::*;

use crate::vec2::{vadd, vmul, Vec2};

verus! {

/// How many particles the pool holds.
pub const PARTICLE_POOL_SIZE: usize = 128;

/// First and last sprite of the exhaust animation, and its lifetime in
/// steps.
pub const EXHAUST_MIN_SPRITE: u32 = 266;

pub const EXHAUST_MAX_SPRITE: u32 = 271;

pub const EXHAUST_LIFE: u32 = 22;

/// One pooled particle; `life == 0` marks a free slot.
#[derive(Clone, Copy, Debug, PartialEq, Eq, Structural)]
pub struct Particle {
    pub pos: Vec2,
    pub vel: Vec2,
    pub min_sprite_idx: u32,
    pub max_sprite_idx: u32,
    pub life: u32,
    pub max_life: u32,
}

impl Particle {
    /// A free slot.
    pub fn null() -> (r: Particle)
        ensures
            r == (Particle {
                pos: Vec2 { x: 0i64, y: 0i64 },
                vel: Vec2 { x: 0i64, y: 0i64 },
                min_sprite_idx: 0u32,
                max_sprite_idx: 0u32,
                life: 0u32,
                max_life: 0u32,
            }),
    {
        Particle {
            pos: Vec2 { x: 0, y: 0 },
            vel: Vec2 { x: 0, y: 0 },
            min_sprite_idx: 0,
            max_sprite_idx: 0,
            life: 0,
            max_life: 0,
        }
    }
}

/// The first free slot at or after `i`, or `-1` when every slot is live.
pub open spec fn spec_first_dead(s: Seq<Particle>, i: int) -> int
    decreases s.len() - i,
{
    if i < 0 || i >= s.len() {
        -1
    } else if s[i].life == 0 {
        i
    } else {
        spec_first_dead(s, i + 1)
    }
}

/// Skipping a live prefix does not change which slot is the first free one.
proof fn lemma_first_dead_prefix(s: Seq<Particle>, i: int)
    requires
        0 <= i <= s.len(),
        forall|j: int| 0 <= j < i ==> s[j].life != 0,
    ensures
        spec_first_dead(s, 0) == spec_first_dead(s, i),
    decreases i,
{
    if i > 0 {
        lemma_first_dead_prefix(s, i - 1);
    }
}

/// One simulation step of a live particle: it drifts by its velocity; the
/// velocity decays by the drawn per-component factor and picks up the
/// drawn jitter.
pub fn particle_step(p: Particle, decay: Vec2, jitter: Vec2) -> (r: Particle)
    ensures
        r.pos == vadd(p.pos, p.vel),
        r.vel == vadd(vmul(p.vel, decay), jitter),
        r.min_sprite_idx == p.min_sprite_idx,
        r.max_sprite_idx == p.max_sprite_idx,
        r.life == p.life,
        r.max_life == p.max_life,
{
    Particle { pos: p.pos.add(p.vel), vel: p.vel.mul(decay).add(jitter), ..p }
}

/// Aging: a particle loses one unit of life per elapsed step, down to zero.
pub fn particle_age(p: Particle, steps: u32) -> (r: Particle)
    ensures
        r.life == if p.life >= steps {
            (p.life - steps) as u32
        } else {
            0u32
        },
        r.pos == p.pos,
        r.vel == p.vel,
        r.min_sprite_idx == p.min_sprite_idx,
        r.max_sprite_idx == p.max_sprite_idx,
        r.max_life == p.max_life,
{
    let life = if p.life >= steps {
        p.life - steps
    } else {
        0
    };
    Particle { life, ..p }
}

/// The pool.
#[derive(Debug)]
pub struct Particles {
    pub items: Vec<Particle>,
}

impl Particles {
    /// A pool of free slots.
    pub fn init() -> (r: Particles)
        ensures
            r.items@.len() == PARTICLE_POOL_SIZE,
            forall|i: int| 0 <= i < r.items@.len() ==> r.items@[i].life == 0,
    {
        let mut items: Vec<Particle> = Vec::new();
        let mut i: usize = 0;
        while i < PARTICLE_POOL_SIZE
            invariant
                i <= PARTICLE_POOL_SIZE,
                items@.len() == i as int,
                forall|j: int| 0 <= j < i as int ==> items@[j].life == 0,
            decreases PARTICLE_POOL_SIZE - i,
        {
            items.push(Particle::null());
            i += 1;
        }
        Particles { items }
    }

    /// Recycle the first free slot for a new particle; a full pool drops
    /// the spawn on the floor.
    pub fn spawn(&mut self, pos: Vec2, vel: Vec2, min_sprite_idx: u32, max_sprite_idx: u32, life:
        u32)
        ensures
            ({
                let fd = spec_first_dead(old(self).items@, 0);
                &&& fd < 0 ==> final(self).items@ == old(self).items@
                &&& fd >= 0 ==> final(self).items@ == old(self).items@.update(
                    fd,
                    Particle { pos, vel, min_sprite_idx, max_sprite_idx, life, max_life: life },
                )
            }),
    {
        let n = self.items.len();
        let mut i: usize = 0;
        while i < n
            invariant
                i <= n,
                n == self.items@.len(),
                self.items@ == old(self).items@,
                forall|j: int| 0 <= j < i as int ==> self.items@[j].life != 0,
            decreases n - i,
        {
            if self.items[i].life == 0 {
                proof {
                    lemma_first_dead_prefix(self.items@, i as int);
                }
                self.items.set(
                    i,
                    Particle { pos, vel, min_sprite_idx, max_sprite_idx, life, max_life: life },
                );
                return ;
            }
            i += 1;
        }
        proof {
            lemma_first_dead_prefix(self.items@, n as int);
        }
    }

    /// Spawn one engine-exhaust particle.
    pub fn spawn_exhaust(&mut self, pos: Vec2, vel: Vec2)
        ensures
            ({
                let fd = spec_first_dead(old(self).items@, 0);
                &&& fd < 0 ==> final(self).items@ == old(self).items@
                &&& fd >= 0 ==> final(self).items@ == old(self).items@.update(
                    fd,
                    Particle {
                        pos,
                        vel,
                        min_sprite_idx: EXHAUST_MIN_SPRITE,
                        max_sprite_idx: EXHAUST_MAX_SPRITE,
                        life: EXHAUST_LIFE,
                        max_life: EXHAUST_LIFE,
                    },
                )
            }),
    {
        self.spawn(pos, vel, EXHAUST_MIN_SPRITE, EXHAUST_MAX_SPRITE, EXHAUST_LIFE)
    }

    /// Whether any live particle lies within the (slightly padded) screen.
    pub fn is_any_visible(&self) -> (r: bool)
        ensures
            r == (exists|i: int|
                0 <= i < self.items@.len() && #[trigger] self.items@[i].life != 0 && spec_visible(
                    self.items@[i],
                )),
    {
        let n = self.items.len();
        let mut i: usize = 0;
        while i < n
            invariant
                i <= n,
                n == self.items@.len(),
                forall|j: int|
                    0 <= j < i as int ==> !(#[trigger] self.items@[j].life != 0 && spec_visible(
                        self.items@[j],
                    )),
            decreases n - i,
        {
            let p = self.items[i];
            if p.life != 0 && p.pos.x >= -17179869184 && p.pos.y >= -17179869184 && p.pos.x
                <= 1047972020224 && p.pos.y <= 601295421440 {
                return true;
            }
            i += 1;
        }
        false
    }
}

/// A particle within four pixels of the screen edge still counts as
/// visible.
pub open spec fn spec_visible(p: Particle) -> bool {
    &&& p.pos.x >= -17179869184
    &&& p.pos.y >= -17179869184
    &&& p.pos.x <= 1047972020224
    &&& p.pos.y <= 601295421440
}

} // verus!
