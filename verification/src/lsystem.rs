//! The L-system alphabet and the rewriting engine.
//!
//! A word is a sequence of [`Module`]s. A concrete system supplies an
//! axiom and a per-symbol production rule through the [`LSystem`] trait;
//! the engine iterates the rule over whole words, optionally in
//! contiguous chunks whose results are concatenated in order. Rules are
//! context-free — a production depends on one symbol only — which is
//! exactly what makes chunked rewriting agree with sequential rewriting.

use vstd::prelude::*;

use crate::fixed::Fx;

verus! {

/// A turtle-graphics drawing command, the interpretation of one module.
#[derive(Clone, Copy, Debug, PartialEq, Eq, Structural)]
pub enum DrawCommand {
    /// Grow a foliage blob of radius `r` over a segment of length `l`.
    Foliage { r: Fx, l: Fx },
    /// Draw a branch segment with width `w` and length `l`.
    Segment { w: Fx, l: Fx },
    /// Move forward distance `d` without drawing.
    Forward { d: Fx },
    /// Roll by `r` radians (rotate heading around the local z axis).
    Roll { r: Fx },
    /// Pitch by `r` radians (rotate heading around the local x axis).
    Pitch { r: Fx },
    /// Yaw by `r` radians (rotate heading around the local y axis).
    Yaw { r: Fx },
    /// An orientation change given as Euler angles.
    Euler { x: Fx, y: Fx, z: Fx },
    /// Save the current transform on the pushdown stack.
    Push,
    /// Restore the most recently saved transform.
    Pop,
    /// Do nothing, draw nothing.
    Idle,
}

pub fn foliage_cmd(r: Fx, l: Fx) -> (c: DrawCommand)
    ensures
        c == (DrawCommand::Foliage { r, l }),
{
    DrawCommand::Foliage { r, l }
}

pub fn segment_cmd(w: Fx, l: Fx) -> (c: DrawCommand)
    ensures
        c == (DrawCommand::Segment { w, l }),
{
    DrawCommand::Segment { w, l }
}

pub fn forward_cmd(d: Fx) -> (c: DrawCommand)
    ensures
        c == (DrawCommand::Forward { d }),
{
    DrawCommand::Forward { d }
}

pub fn roll_cmd(r: Fx) -> (c: DrawCommand)
    ensures
        c == (DrawCommand::Roll { r }),
{
    DrawCommand::Roll { r }
}

pub fn pitch_cmd(r: Fx) -> (c: DrawCommand)
    ensures
        c == (DrawCommand::Pitch { r }),
{
    DrawCommand::Pitch { r }
}

pub fn yaw_cmd(r: Fx) -> (c: DrawCommand)
    ensures
        c == (DrawCommand::Yaw { r }),
{
    DrawCommand::Yaw { r }
}

pub fn euler_cmd(x: Fx, y: Fx, z: Fx) -> (c: DrawCommand)
    ensures
        c == (DrawCommand::Euler { x, y, z }),
{
    DrawCommand::Euler { x, y, z }
}

pub fn push_cmd() -> (c: DrawCommand)
    ensures
        c == DrawCommand::Push,
{
    DrawCommand::Push
}

pub fn pop_cmd() -> (c: DrawCommand)
    ensures
        c == DrawCommand::Pop,
{
    DrawCommand::Pop
}

pub fn none_cmd() -> (c: DrawCommand)
    ensures
        c == DrawCommand::Idle,
{
    DrawCommand::Idle
}

/// One symbol of an L-system word: a letter of the alphabet together
/// with its numeric parameters. `life` is a countdown bounding further
/// recursive growth.
#[derive(Clone, Copy, Debug, PartialEq, Eq, Structural)]
pub enum Module {
    /// Rotate around the z axis by `r` radians.
    Roll { r: Fx },
    /// Rotate around the x axis by `r` radians.
    Pitch { r: Fx },
    /// Rotate around the y axis by `r` radians.
    Yaw { r: Fx },
    /// An orientation change in Euler angles.
    Euler { x: Fx, y: Fx, z: Fx },
    /// Save the current transform on the matrix stack.
    Push,
    /// Restore the previously pushed transform, or identity at the bottom.
    Pop,
    /// Generation point for plant organs, on the trunk.
    TrunkApex { life: u8 },
    /// Generation point for plant organs, on a branch.
    BranchApex { r: Fx, l: Fx, life: u8 },
    /// Trunk of the tree.
    Trunk { w: Fx, l: Fx, life: u8 },
    /// A straight branch with width `w` and length `l`.
    Branch { w: Fx, l: Fx, life: u8 },
    /// Any custom element, tagged and carrying its own drawing command.
    Custom(u8, DrawCommand),
}

/// The total mapping from a module to the drawing command it stands for.
pub open spec fn spec_to_draw_command(m: Module) -> DrawCommand {
    match m {
        Module::Roll { r } => DrawCommand::Roll { r },
        Module::Pitch { r } => DrawCommand::Pitch { r },
        Module::Yaw { r } => DrawCommand::Yaw { r },
        Module::Euler { x, y, z } => DrawCommand::Euler { x, y, z },
        Module::Push => DrawCommand::Push,
        Module::Pop => DrawCommand::Pop,
        Module::TrunkApex { .. } => DrawCommand::Idle,
        Module::BranchApex { r, l, .. } => DrawCommand::Foliage { r, l },
        Module::Trunk { w, l, .. } => DrawCommand::Segment { w, l },
        Module::Branch { w, l, .. } => DrawCommand::Segment { w, l },
        Module::Custom(_, cmd) => cmd,
    }
}

impl Module {
    /// Lower this module to its turtle drawing command.
    pub fn to_draw_command(&self) -> (c: DrawCommand)
        ensures
            c == spec_to_draw_command(*self),
    {
        match *self {
            Module::Roll { r } => roll_cmd(r),
            Module::Pitch { r } => pitch_cmd(r),
            Module::Yaw { r } => yaw_cmd(r),
            Module::Euler { x, y, z } => euler_cmd(x, y, z),
            Module::Push => push_cmd(),
            Module::Pop => pop_cmd(),
            Module::TrunkApex { .. } => none_cmd(),
            Module::BranchApex { r, l, .. } => foliage_cmd(r, l),
            Module::Trunk { w, l, .. } => segment_cmd(w, l),
            Module::Branch { w, l, .. } => segment_cmd(w, l),
            Module::Custom(_, cmd) => cmd,
        }
    }
}

pub fn roll(r: Fx) -> (m: Module)
    ensures
        m == (Module::Roll { r }),
{
    Module::Roll { r }
}

pub fn pitch(r: Fx) -> (m: Module)
    ensures
        m == (Module::Pitch { r }),
{
    Module::Pitch { r }
}

pub fn yaw(r: Fx) -> (m: Module)
    ensures
        m == (Module::Yaw { r }),
{
    Module::Yaw { r }
}

pub fn euler(x: Fx, y: Fx, z: Fx) -> (m: Module)
    ensures
        m == (Module::Euler { x, y, z }),
{
    Module::Euler { x, y, z }
}

pub fn push() -> (m: Module)
    ensures
        m == Module::Push,
{
    Module::Push
}

pub fn pop() -> (m: Module)
    ensures
        m == Module::Pop,
{
    Module::Pop
}

pub fn trunk_apex(life: u8) -> (m: Module)
    ensures
        m == (Module::TrunkApex { life }),
{
    Module::TrunkApex { life }
}

pub fn branch_apex(r: Fx, l: Fx, life: u8) -> (m: Module)
    ensures
        m == (Module::BranchApex { r, l, life }),
{
    Module::BranchApex { r, l, life }
}

pub fn trunk(w: Fx, l: Fx, life: u8) -> (m: Module)
    ensures
        m == (Module::Trunk { w, l, life }),
{
    Module::Trunk { w, l, life }
}

pub fn branch(w: Fx, l: Fx, life: u8) -> (m: Module)
    ensures
        m == (Module::Branch { w, l, life }),
{
    Module::Branch { w, l, life }
}

pub fn custom(num: u8, cmd: DrawCommand) -> (m: Module)
    ensures
        m == Module::Custom(num, cmd),
{
    Module::Custom(num, cmd)
}

pub fn custom_none(num: u8) -> (m: Module)
    ensures
        m == Module::Custom(num, DrawCommand::Idle),
{
    Module::Custom(num, DrawCommand::Idle)
}

/// A pluggable L-system: an axiom plus a context-free production rule.
///
/// `spec_axiom` and `spec_produce` give the mathematical axiom and rule;
/// `is_deterministic` says whether the executable `axiom` and `produce`
/// return exactly those. A system whose rule draws random numbers sets
/// it to false and instead pins its output down through `axiom_rel` and
/// `produce_rel`, which must hold of every outcome.
pub trait LSystem: Sized + Copy {
    /// The symbol type of this system's words.
    type Module: Copy;

    /// The mathematical initial word.
    spec fn spec_axiom(&self) -> Seq<Self::Module>;

    /// What is true of every word the executable `axiom` can return.
    spec fn axiom_rel(&self, w: Seq<Self::Module>) -> bool;

    /// The mathematical production rule, one symbol to its replacement.
    spec fn spec_produce(&self, m: Self::Module) -> Seq<Self::Module>;

    /// What is true of every replacement `produce` can return for `m`.
    spec fn produce_rel(&self, m: Self::Module, out: Seq<Self::Module>) -> bool;

    /// Whether `axiom` and `produce` compute `spec_axiom` and
    /// `spec_produce` exactly.
    spec fn is_deterministic(&self) -> bool;

    /// The initial word (the axiom), the seed of the system.
    fn seed(&self) -> (w: Vec<Self::Module>)
        ensures
            self.axiom_rel(w@),
            self.is_deterministic() ==> w@ == self.spec_axiom(),
    ;

    /// The replacement word for one module. The rule is total: a symbol
    /// without a matching rule must be returned unchanged, never dropped.
    fn produce(&self, module: Self::Module) -> (out: Vec<Self::Module>)
        ensures
            self.produce_rel(module, out@),
            self.is_deterministic() ==> out@ == self.spec_produce(module),
    ;
}

/// One sequential rewriting round: every symbol replaced by its
/// production, results concatenated in order.
pub open spec fn spec_rewrite<T: LSystem>(sys: T, word: Seq<T::Module>) -> Seq<T::Module>
    decreases word.len(),
{
    if word.len() == 0 {
        Seq::empty()
    } else {
        sys.spec_produce(word[0]) + spec_rewrite(sys, word.skip(1))
    }
}

/// The word after `n` rewriting rounds from the axiom.
pub open spec fn spec_run<T: LSystem>(sys: T, n: nat) -> Seq<T::Module>
    decreases n,
{
    if n == 0 {
        sys.spec_axiom()
    } else {
        spec_rewrite(sys, spec_run(sys, (n - 1) as nat))
    }
}

/// `out` is a possible one-round rewriting of `w`: a concatenation, in
/// order, of one admissible production per symbol of `w`.
pub open spec fn produces_word<T: LSystem>(sys: T, w: Seq<T::Module>, out: Seq<T::Module>) -> bool
    decreases w.len(),
{
    if w.len() == 0 {
        out.len() == 0
    } else {
        exists|k: int|
            0 <= k <= out.len() && sys.produce_rel(w[0], #[trigger] out.subrange(0, k))
                && produces_word(sys, w.skip(1), out.subrange(k, out.len() as int))
    }
}

/// `out` is a word the system can reach in exactly `n` rounds.
pub open spec fn reachable_in<T: LSystem>(sys: T, out: Seq<T::Module>, n: nat) -> bool
    decreases n,
{
    if n == 0 {
        sys.axiom_rel(out)
    } else {
        exists|mid: Seq<T::Module>|
            #[trigger] produces_word(sys, mid, out) && reachable_in(sys, mid, (n - 1) as nat)
    }
}

/// Flatten a sequence of words into one word, keeping order.
pub open spec fn concat_all<A>(s: Seq<Seq<A>>) -> Seq<A>
    decreases s.len(),
{
    if s.len() == 0 {
        Seq::empty()
    } else {
        s[0] + concat_all(s.skip(1))
    }
}

pub proof fn lemma_concat_all_append<A>(s1: Seq<Seq<A>>, s2: Seq<Seq<A>>)
    ensures
        concat_all(s1 + s2) == concat_all(s1) + concat_all(s2),
    decreases s1.len(),
{
    if s1.len() == 0 {
        assert(s1 + s2 =~= s2);
        assert(concat_all(s1 + s2) =~= concat_all(s1) + concat_all(s2));
    } else {
        assert((s1 + s2).skip(1) =~= s1.skip(1) + s2);
        lemma_concat_all_append(s1.skip(1), s2);
        assert((s1 + s2)[0] == s1[0]);
        assert(concat_all(s1 + s2) =~= concat_all(s1) + concat_all(s2));
    }
}

pub proof fn lemma_concat_all_snoc<A>(s: Seq<Seq<A>>, x: Seq<A>)
    ensures
        concat_all(s.push(x)) == concat_all(s) + x,
    decreases s.len(),
{
    if s.len() == 0 {
        assert(s.push(x)[0] == x);
        assert(s.push(x).skip(1) =~= Seq::<Seq<A>>::empty());
        assert(concat_all(Seq::<Seq<A>>::empty()) == Seq::<A>::empty());
        assert(concat_all(s.push(x)) =~= concat_all(s) + x);
    } else {
        assert(s.push(x)[0] == s[0]);
        assert(s.push(x).skip(1) =~= s.skip(1).push(x));
        lemma_concat_all_snoc(s.skip(1), x);
        assert(concat_all(s.push(x)) =~= concat_all(s) + x);
    }
}

/// Rewriting distributes over concatenation of words.
pub proof fn lemma_rewrite_append<T: LSystem>(sys: T, w1: Seq<T::Module>, w2: Seq<T::Module>)
    ensures
        spec_rewrite(sys, w1 + w2) == spec_rewrite(sys, w1) + spec_rewrite(sys, w2),
    decreases w1.len(),
{
    if w1.len() == 0 {
        assert(w1 + w2 =~= w2);
        assert(spec_rewrite(sys, w1 + w2) =~= spec_rewrite(sys, w1) + spec_rewrite(sys, w2));
    } else {
        assert((w1 + w2).skip(1) =~= w1.skip(1) + w2);
        lemma_rewrite_append(sys, w1.skip(1), w2);
        assert((w1 + w2)[0] == w1[0]);
        assert(spec_rewrite(sys, w1 + w2) =~= spec_rewrite(sys, w1) + spec_rewrite(sys, w2));
    }
}

pub proof fn lemma_rewrite_snoc<T: LSystem>(sys: T, w: Seq<T::Module>, m: T::Module)
    ensures
        spec_rewrite(sys, w.push(m)) == spec_rewrite(sys, w) + sys.spec_produce(m),
{
    assert(w.push(m) =~= w + seq![m]);
    lemma_rewrite_append(sys, w, seq![m]);
    assert(seq![m][0] == m);
    assert(seq![m].skip(1) =~= Seq::<T::Module>::empty());
    assert(spec_rewrite(sys, Seq::<T::Module>::empty()) == Seq::<T::Module>::empty());
    assert(sys.spec_produce(m) + Seq::<T::Module>::empty() =~= sys.spec_produce(m));
    assert(spec_rewrite(sys, seq![m]) =~= sys.spec_produce(m));
}

/// One-round rewritings compose over concatenation: admissible outputs
/// for two words, laid end to end, form an admissible output for the
/// two words laid end to end.
pub proof fn lemma_produces_word_append<T: LSystem>(
    sys: T,
    w1: Seq<T::Module>,
    o1: Seq<T::Module>,
    w2: Seq<T::Module>,
    o2: Seq<T::Module>,
)
    requires
        produces_word(sys, w1, o1),
        produces_word(sys, w2, o2),
    ensures
        produces_word(sys, w1 + w2, o1 + o2),
    decreases w1.len(),
{
    if w1.len() == 0 {
        assert(w1 + w2 =~= w2);
        assert(o1 + o2 =~= o2);
    } else {
        let k = choose|k: int|
            0 <= k <= o1.len() && sys.produce_rel(w1[0], #[trigger] o1.subrange(0, k))
                && produces_word(sys, w1.skip(1), o1.subrange(k, o1.len() as int));
        lemma_produces_word_append(sys, w1.skip(1), o1.subrange(k, o1.len() as int), w2, o2);
        assert((w1 + w2).skip(1) =~= w1.skip(1) + w2);
        assert((o1 + o2).subrange(0, k) =~= o1.subrange(0, k));
        assert((o1 + o2).subrange(k, (o1 + o2).len() as int) =~= o1.subrange(k, o1.len() as int)
            + o2);
        assert((w1 + w2)[0] == w1[0]);
        assert(sys.produce_rel((w1 + w2)[0], (o1 + o2).subrange(0, k)));
        assert(produces_word(sys, w1 + w2, o1 + o2));
    }
}

pub proof fn lemma_produces_word_snoc<T: LSystem>(
    sys: T,
    w: Seq<T::Module>,
    out: Seq<T::Module>,
    m: T::Module,
    prod: Seq<T::Module>,
)
    requires
        produces_word(sys, w, out),
        sys.produce_rel(m, prod),
    ensures
        produces_word(sys, w.push(m), out + prod),
{
    let single = seq![m];
    assert(single[0] == m);
    assert(prod.subrange(0, prod.len() as int) =~= prod);
    assert(single.skip(1) =~= Seq::<T::Module>::empty());
    assert(prod.subrange(prod.len() as int, prod.len() as int) =~= Seq::<T::Module>::empty());
    assert(sys.produce_rel(single[0], prod.subrange(0, prod.len() as int)));
    assert(produces_word(sys, Seq::<T::Module>::empty(), Seq::<T::Module>::empty()));
    assert(produces_word(sys, single, prod));
    lemma_produces_word_append(sys, w, out, single, prod);
    assert(w.push(m) =~= w + single);
}

/// Chunked rewriting equals sequential rewriting: splitting a word into
/// chunks of any sizes, rewriting each chunk independently, and
/// concatenating the results in original chunk order yields exactly the
/// sequential rewriting of the concatenated word. This rests on the
/// rule being context-free: a production reads one symbol only.
pub proof fn lemma_chunked_rewrite_equivalence<T: LSystem>(sys: T, chunks: Seq<Seq<T::Module>>)
    ensures
        concat_all(chunks.map_values(|c: Seq<T::Module>| spec_rewrite(sys, c))) == spec_rewrite(
            sys,
            concat_all(chunks),
        ),
    decreases chunks.len(),
{
    let rewritten = chunks.map_values(|c: Seq<T::Module>| spec_rewrite(sys, c));
    if chunks.len() == 0 {
        assert(rewritten =~= Seq::<Seq<T::Module>>::empty());
        assert(concat_all(rewritten) =~= spec_rewrite(sys, concat_all(chunks)));
    } else {
        lemma_chunked_rewrite_equivalence(sys, chunks.skip(1));
        lemma_rewrite_append(sys, chunks[0], concat_all(chunks.skip(1)));
        assert(rewritten.skip(1) =~= chunks.skip(1).map_values(
            |c: Seq<T::Module>| spec_rewrite(sys, c),
        ));
        assert(rewritten[0] == spec_rewrite(sys, chunks[0]));
        assert(concat_all(rewritten) =~= spec_rewrite(sys, concat_all(chunks)));
    }
}

/// For a purely-expansive rule set — no symbol's replacement is empty —
/// one rewriting round never shortens the word.
pub proof fn lemma_expansive_rewrite<T: LSystem>(sys: T, w: Seq<T::Module>)
    requires
        forall|m: T::Module| #[trigger] sys.spec_produce(m).len() >= 1,
    ensures
        spec_rewrite(sys, w).len() >= w.len(),
    decreases w.len(),
{
    if w.len() > 0 {
        lemma_expansive_rewrite(sys, w.skip(1));
    }
}

/// For a purely-expansive rule set, word length is non-decreasing
/// across iterations.
pub proof fn lemma_expansive_run<T: LSystem>(sys: T, n: nat)
    requires
        forall|m: T::Module| #[trigger] sys.spec_produce(m).len() >= 1,
    ensures
        spec_run(sys, n).len() <= spec_run(sys, (n + 1) as nat).len(),
{
    lemma_expansive_rewrite(sys, spec_run(sys, n));
}

/// Split a vector into chunks of `numsplits` elements; the last chunk
/// holds whatever remains. Concatenating the chunks in order restores
/// the input.
pub fn split_vec<T: Copy>(thevec: Vec<T>, numsplits: usize) -> (chunks: Vec<Vec<T>>)
    requires
        numsplits >= 1,
    ensures
        concat_all(chunks@.map_values(|c: Vec<T>| c@)) == thevec@,
        forall|j: int| 0 <= j < chunks@.len() ==> 1 <= #[trigger] chunks@[j]@.len() <= numsplits,
        forall|j: int| 0 <= j < chunks@.len() - 1 ==> #[trigger] chunks@[j]@.len() == numsplits,
{
    let mut chunks: Vec<Vec<T>> = Vec::new();
    let mut i: usize = 0;
    proof {
        assert(chunks@.map_values(|c: Vec<T>| c@) =~= Seq::<Seq<T>>::empty());
        assert(thevec@.take(0) =~= Seq::<T>::empty());
    }
    while i < thevec.len()
        invariant
            numsplits >= 1,
            i <= thevec@.len(),
            concat_all(chunks@.map_values(|c: Vec<T>| c@)) == thevec@.take(i as int),
            forall|j: int|
                0 <= j < chunks@.len() ==> 1 <= #[trigger] chunks@[j]@.len() <= numsplits,
            forall|j: int|
                0 <= j < chunks@.len() - 1 ==> #[trigger] chunks@[j]@.len() == numsplits,
            i < thevec@.len() ==> forall|j: int|
                0 <= j < chunks@.len() ==> #[trigger] chunks@[j]@.len() == numsplits,
        decreases thevec@.len() - i,
    {
        let end = if thevec.len() - i >= numsplits {
            i + numsplits
        } else {
            thevec.len()
        };
        let mut chunk: Vec<T> = Vec::new();
        let mut j = i;
        proof {
            assert(chunk@ =~= thevec@.subrange(i as int, i as int));
        }
        while j < end
            invariant
                i <= j <= end,
                end <= thevec@.len(),
                chunk@ == thevec@.subrange(i as int, j as int),
            decreases end - j,
        {
            let item = thevec[j];
            chunk.push(item);
            proof {
                assert(chunk@ =~= thevec@.subrange(i as int, j as int + 1));
            }
            j += 1;
        }
        proof {
            let old_views = chunks@.map_values(|c: Vec<T>| c@);
            lemma_concat_all_snoc(old_views, chunk@);
            assert(chunks@.push(chunk).map_values(|c: Vec<T>| c@) =~= old_views.push(chunk@));
            assert(thevec@.take(i as int) + thevec@.subrange(i as int, end as int) =~= thevec@.take(
                end as int,
            ));
        }
        chunks.push(chunk);
        i = end;
    }
    proof {
        assert(thevec@.take(i as int) =~= thevec@);
    }
    chunks
}

/// One rewriting round over a whole word: each symbol's production,
/// concatenated in order.
pub fn iterate_system<T: LSystem>(lsystem: T, word: Vec<T::Module>) -> (out: Vec<T::Module>)
    ensures
        produces_word(lsystem, word@, out@),
        lsystem.is_deterministic() ==> out@ == spec_rewrite(lsystem, word@),
{
    let mut out: Vec<T::Module> = Vec::new();
    let n = word.len();
    let mut i: usize = 0;
    proof {
        assert(word@.take(0) =~= Seq::<T::Module>::empty());
        assert(out@ =~= Seq::<T::Module>::empty());
    }
    while i < n
        invariant
            n == word@.len(),
            i <= n,
            produces_word(lsystem, word@.take(i as int), out@),
            lsystem.is_deterministic() ==> out@ == spec_rewrite(lsystem, word@.take(i as int)),
        decreases n - i,
    {
        let m = word[i];
        let mut prod = lsystem.produce(m);
        proof {
            lemma_produces_word_snoc(lsystem, word@.take(i as int), out@, m, prod@);
            if lsystem.is_deterministic() {
                lemma_rewrite_snoc(lsystem, word@.take(i as int), m);
            }
            assert(word@.take(i as int).push(m) =~= word@.take(i as int + 1));
        }
        out.append(&mut prod);
        i += 1;
    }
    proof {
        assert(word@.take(n as int) =~= word@);
    }
    out
}

/// Run the system for `iterations` rounds from its axiom, rewriting
/// each round in contiguous chunks sized for `target_chunks` pieces.
/// Chunking never changes the result: for a deterministic system the
/// output is exactly `spec_run`, the sequential rewriting.
pub fn run_system_with_chunks<T: LSystem>(
    lsystem: T,
    iterations: u32,
    target_chunks: usize,
) -> (w: Vec<T::Module>)
    requires
        target_chunks >= 1,
    ensures
        reachable_in(lsystem, w@, iterations as nat),
        iterations == 0 ==> lsystem.axiom_rel(w@),
        lsystem.is_deterministic() ==> w@ == spec_run(lsystem, iterations as nat),
{
    let mut word = lsystem.seed();
    let mut it: u32 = 0;
    while it < iterations
        invariant
            target_chunks >= 1,
            it <= iterations,
            reachable_in(lsystem, word@, it as nat),
            lsystem.is_deterministic() ==> word@ == spec_run(lsystem, it as nat),
        decreases iterations - it,
    {
        let ghost prev = word@;
        let next: Vec<T::Module>;
        if word.len() == 0 {
            next = Vec::new();
            proof {
                assert(produces_word(lsystem, prev, next@));
                if lsystem.is_deterministic() {
                    assert(spec_rewrite(lsystem, prev) =~= next@);
                }
            }
        } else {
            let len = word.len();
            let chunk_size = (len - 1) / target_chunks + 1;
            let mut chunks = split_vec(word, chunk_size);
            let ghost full = chunks@.map_values(|c: Vec<T::Module>| c@);
            let mut acc: Vec<T::Module> = Vec::new();
            proof {
                assert(full.skip(chunks@.len() as int) =~= Seq::<Seq<T::Module>>::empty());
                assert(produces_word(lsystem, concat_all(full.skip(chunks@.len() as int)), acc@));
                if lsystem.is_deterministic() {
                    assert(acc@ =~= spec_rewrite(
                        lsystem,
                        concat_all(full.skip(chunks@.len() as int)),
                    ));
                }
            }
            while chunks.len() > 0
                invariant
                    full == full,
                    chunks@.len() <= full.len(),
                    forall|j: int| 0 <= j < chunks@.len() ==> #[trigger] chunks@[j]@ == full[j],
                    produces_word(lsystem, concat_all(full.skip(chunks@.len() as int)), acc@),
                    lsystem.is_deterministic() ==> acc@ == spec_rewrite(
                        lsystem,
                        concat_all(full.skip(chunks@.len() as int)),
                    ),
                decreases chunks@.len(),
            {
                let chunk = chunks.pop().unwrap();
                let ghost rest = chunks@.len() as int;
                let mut piece = iterate_system(lsystem, chunk);
                proof {
                    assert(full.skip(rest)[0] == full[rest]);
                    assert(full.skip(rest).skip(1) =~= full.skip(rest + 1));
                    lemma_produces_word_append(
                        lsystem,
                        full[rest],
                        piece@,
                        concat_all(full.skip(rest + 1)),
                        acc@,
                    );
                    assert(full[rest] + concat_all(full.skip(rest + 1)) =~= concat_all(
                        full.skip(rest),
                    ));
                    if lsystem.is_deterministic() {
                        lemma_rewrite_append(
                            lsystem,
                            full[rest],
                            concat_all(full.skip(rest + 1)),
                        );
                    }
                }
                piece.append(&mut acc);
                acc = piece;
            }
            proof {
                assert(full.skip(0) =~= full);
                assert(concat_all(full) == prev);
            }
            next = acc;
        }
        proof {
            assert(produces_word(lsystem, prev, next@));
            assert(reachable_in(lsystem, next@, (it + 1) as nat));
        }
        word = next;
        it += 1;
    }
    word
}

/// Run the system for `iterations` rounds with the default chunking.
pub fn run_system<T: LSystem>(lsystem: T, iterations: u32) -> (w: Vec<T::Module>)
    ensures
        reachable_in(lsystem, w@, iterations as nat),
        iterations == 0 ==> lsystem.axiom_rel(w@),
        lsystem.is_deterministic() ==> w@ == spec_run(lsystem, iterations as nat),
{
    run_system_with_chunks(lsystem, iterations, 8)
}

} // verus!
