//! The rewriting engine and the concrete systems, on concrete words.

use lsystem_trees::actions;
use lsystem_trees::fixed::{Fx, FX_PI, FX_SCALE};
use lsystem_trees::lsystem::{branch, custom, iterate_system, pitch, roll, run_system,
    run_system_with_chunks, segment_cmd, split_vec, trunk_apex, DrawCommand, LSystem, Module};
use lsystem_trees::trees::{BasicTree, BranchingTree, DragonCurve, KochCurve, RoundTree};

fn fx(n: i64) -> Fx {
    Fx::from_int(n)
}

fn sequential_round<T: LSystem<Module = Module>>(sys: T, word: Vec<Module>) -> Vec<Module> {
    let mut out = Vec::new();
    for m in word {
        out.extend(sys.produce(m));
    }
    out
}

#[test]
fn zero_iterations_returns_the_seed() {
    let produced = run_system(KochCurve, 0);
    assert_eq!(produced, KochCurve.seed());
}

#[test]
fn koch_seed_has_five_symbols() {
    let w = KochCurve.seed();
    assert_eq!(w.len(), 5);
    assert!(matches!(w[0], Module::Branch { .. }));
    assert!(matches!(w[1], Module::Pitch { .. }));
}

#[test]
fn koch_branch_expands_to_seven() {
    let out = KochCurve.produce(branch(fx(1), fx(27), 1));
    assert_eq!(out.len(), 7);
    for (i, m) in out.iter().enumerate() {
        if i % 2 == 0 {
            assert!(matches!(m, Module::Branch { .. }));
        } else {
            assert!(matches!(m, Module::Pitch { .. }));
        }
    }
    match out[0] {
        Module::Branch { w, l, life } => {
            assert_eq!(w, fx(1));
            assert_eq!(l, fx(9));
            assert_eq!(life, 1);
        },
        _ => panic!("expected a branch"),
    }
}

#[test]
fn koch_unmatched_symbol_passes_through() {
    let p = pitch(Fx::from_degrees(60));
    assert_eq!(KochCurve.produce(p), vec![p]);
}

#[test]
fn word_length_non_decreasing_for_expansive_rules() {
    let mut prev = run_system(KochCurve, 0).len();
    for n in 1..5u32 {
        let len = run_system(KochCurve, n).len();
        assert!(len >= prev);
        prev = len;
    }
}

#[test]
fn chunked_and_sequential_rewriting_agree() {
    let word = run_system(KochCurve, 2);
    let sequential = sequential_round(KochCurve, word.clone());
    for chunk_size in [1usize, 2, 3, 7, 1000] {
        let chunks = split_vec(word.clone(), chunk_size);
        let mut chunked: Vec<Module> = Vec::new();
        for chunk in chunks {
            chunked.extend(iterate_system(KochCurve, chunk));
        }
        assert_eq!(chunked, sequential);
    }
}

#[test]
fn chunk_counts_do_not_change_the_run() {
    let one = run_system_with_chunks(KochCurve, 3, 1);
    let eight = run_system_with_chunks(KochCurve, 3, 8);
    let many = run_system_with_chunks(KochCurve, 3, 1000);
    assert_eq!(one, eight);
    assert_eq!(one, many);
    assert_eq!(one, run_system(KochCurve, 3));
}

#[test]
fn split_vec_chunks_restore_the_input() {
    let input: Vec<u32> = (0..10).collect();
    let chunks = split_vec(input.clone(), 3);
    assert_eq!(chunks.len(), 4);
    assert_eq!(chunks[0], vec![0, 1, 2]);
    assert_eq!(chunks[3], vec![9]);
    let rejoined: Vec<u32> = chunks.into_iter().flatten().collect();
    assert_eq!(rejoined, input);
}

#[test]
fn koch_scenario_lengths() {
    // One branch of length 27; each branch becomes seven symbols, each
    // pitch is untouched: 7 after one round, 4 * 7 + 3 = 31 after two.
    let word = vec![branch(fx(1), fx(27), 1)];
    let one = sequential_round(KochCurve, word);
    assert_eq!(one.len(), 7);
    let two = sequential_round(KochCurve, one);
    assert_eq!(two.len(), 31);
}

#[test]
fn rule_produce_scenario_lengths() {
    let seed = vec![actions::Module::action(actions::Action::branch(fx(1), fx(27)))];
    let one: Vec<actions::Module> =
        seed.into_iter().flat_map(actions::rule_produce).collect();
    assert_eq!(one.len(), 7);
    let two: Vec<actions::Module> =
        one.into_iter().flat_map(actions::rule_produce).collect();
    assert_eq!(two.len(), 31);
}

#[test]
fn koch_first_round_has_twentythree_symbols() {
    // Three branches of the seed each become seven symbols; the two
    // pitches are untouched: 3 * 7 + 2 = 23.
    assert_eq!(run_system(KochCurve, 1).len(), 23);
}

#[test]
fn rule_produce_interleaves_branches_and_pitches() {
    let seed = actions::Module::action(actions::Action::branch(fx(1), fx(27)));
    let out = actions::rule_produce(seed);
    for (i, m) in out.iter().enumerate() {
        if i % 2 == 0 {
            assert!(matches!(m.action, actions::Action::Branch { .. }));
        } else {
            assert!(matches!(m.action, actions::Action::Pitch { .. }));
        }
    }
}

#[test]
fn rule_produce_divides_length_by_three() {
    let seed = actions::Module::action(actions::Action::branch(fx(1), fx(27)));
    let out = actions::rule_produce(seed);
    match out[0].action {
        actions::Action::Branch { w, l } => {
            assert_eq!(w, fx(1));
            assert_eq!(l, fx(9));
        },
        _ => panic!("expected a branch"),
    }
    match out[1].action {
        actions::Action::Pitch { r } => assert_eq!(r, Fx::from_degrees(60)),
        _ => panic!("expected a pitch"),
    }
}

#[test]
fn rule_produce_passes_other_symbols_through() {
    let m = actions::Module::action(actions::Action::yaw(fx(1)));
    assert_eq!(actions::rule_produce(m), vec![m]);
}

#[test]
fn dragon_curve_unfolds() {
    let seg = segment_cmd(fx(1), fx(1));
    let out = DragonCurve.produce(custom(1, seg));
    assert_eq!(out.len(), 3);
    assert!(matches!(out[0], Module::Custom(1, DrawCommand::Segment { .. })));
    assert!(matches!(out[1], Module::Roll { .. }));
    assert!(matches!(out[2], Module::Custom(2, DrawCommand::Segment { .. })));
    let out2 = DragonCurve.produce(custom(2, seg));
    match out2[1] {
        Module::Roll { r } => assert_eq!(r, Fx::from_degrees(90)),
        _ => panic!("expected a roll"),
    }
}

#[test]
fn basic_tree_apex_sprouts_thirteen() {
    let out = BasicTree.produce(trunk_apex(0));
    assert_eq!(out.len(), 13);
    assert_eq!(out[0], Module::Push);
    assert_eq!(out[4], Module::Pop);
    assert!(matches!(out[12], Module::TrunkApex { .. }));
}

#[test]
fn basic_tree_branch_grows_by_fifteen_percent() {
    let out = BasicTree.produce(branch(fx(1), fx(100), 1));
    match out[0] {
        Module::Branch { l, .. } => assert_eq!(l, fx(115)),
        _ => panic!("expected a branch"),
    }
}

#[test]
fn branching_tree_life_counts_down() {
    let sys = BranchingTree { base_width: fx(1), base_length: fx(2) };
    let out = sys.produce(branch(fx(1), fx(10), 3));
    assert_eq!(out.len(), 1);
    match out[0] {
        Module::Branch { w, l, life } => {
            assert_eq!(life, 2);
            assert_eq!(w, fx(1).mul_ratio(13, 10));
            assert_eq!(l, fx(13));
        },
        _ => panic!("expected a branch"),
    }
    let dead = sys.produce(branch(fx(1), fx(10), 0));
    assert_eq!(dead, vec![branch(fx(1), fx(10), 0)]);
}

#[test]
fn branching_tree_seed_doubles_the_trunk() {
    let sys = BranchingTree { base_width: fx(1), base_length: fx(2) };
    let w = sys.seed();
    assert_eq!(w.len(), 2);
    match w[0] {
        Module::Trunk { l, life, .. } => {
            assert_eq!(l, fx(4));
            assert_eq!(life, 5);
        },
        _ => panic!("expected a trunk"),
    }
}

fn round_tree() -> RoundTree {
    RoundTree {
        base_width: Fx::from_bits(FX_SCALE / 4),
        trunk_base_length: Fx::from_bits(FX_SCALE / 8),
        branch_base_length: fx(1),
        base_foliage_radius: Fx::from_bits(FX_SCALE / 2),
        base_foliage_length: fx(1),
    }
}

#[test]
fn round_tree_seed_jitter_is_bounded() {
    let sys = round_tree();
    let w = sys.seed();
    assert_eq!(w.len(), 3);
    match w[0] {
        Module::Euler { x, y, z } => {
            let cap = FX_PI / 32;
            for b in [x.bits, y.bits, z.bits] {
                assert!(0 <= b && b <= cap);
            }
        },
        _ => panic!("expected a jitter rotation"),
    }
}

#[test]
fn round_tree_apex_expands_and_dies() {
    let sys = round_tree();
    let grown = sys.produce(Module::BranchApex { r: fx(1), l: fx(1), life: 2 });
    assert_eq!(grown.len(), 15);
    match grown[2] {
        Module::Roll { r } => {
            let lo = Fx::from_int(25).to_radians().bits;
            let hi = Fx::from_int(30).to_radians().bits;
            assert!(lo <= r.bits && r.bits <= hi);
        },
        _ => panic!("expected a roll"),
    }
    let dead = sys.produce(Module::BranchApex { r: fx(1), l: fx(1), life: 0 });
    assert!(dead.is_empty());
}

#[test]
fn round_tree_trunk_grows_by_twenty_percent() {
    let sys = round_tree();
    let out = sys.produce(Module::Trunk { w: fx(1), l: fx(10), life: 0 });
    assert_eq!(out.len(), 3);
    match out[0] {
        Module::Trunk { l, .. } => assert_eq!(l, fx(12)),
        _ => panic!("expected a trunk"),
    }
    match out[1] {
        Module::Euler { x, y, z } => {
            let cap = FX_PI / 200;
            for b in [x.bits, y.bits, z.bits] {
                assert!(0 <= b && b <= cap);
            }
        },
        _ => panic!("expected a jitter rotation"),
    }
}

#[test]
fn round_tree_grows_end_to_end() {
    let sys = round_tree();
    let word = run_system(sys, 3);
    assert!(word.len() > 3);
    let (mesh, requests) = lsystem_trees::draw_helpers::ls_to_cylinders(&word);
    assert!(mesh.vertices.len() > 0);
    assert!(requests.len() > 0);
    for (i, &idx) in mesh.indices.iter().enumerate() {
        assert_eq!(idx as usize, i);
    }
    let line = lsystem_trees::draw_helpers::ls_to_lines(&word);
    assert!(line.points.len() >= 2);
    assert_eq!(line.points.len() % 2, 0);
    assert_eq!(line.points.len(), line.colors.len());
}

#[test]
fn action_module_constructors() {
    let none = actions::Module::none();
    assert_eq!(none.action, actions::Action::Idle);
    assert_eq!(none.rule, actions::Rule::Idle);
    let act = actions::Module::action(actions::Action::push());
    assert_eq!(act.action, actions::Action::Push);
    let ruled = actions::Module::rule(actions::Rule::Idle);
    assert_eq!(ruled.action, actions::Action::Idle);
}

#[test]
fn to_draw_command_is_total() {
    assert_eq!(roll(fx(1)).to_draw_command(), DrawCommand::Roll { r: fx(1) });
    assert_eq!(trunk_apex(3).to_draw_command(), DrawCommand::Idle);
    let seg = segment_cmd(fx(2), fx(3));
    assert_eq!(custom(9, seg).to_draw_command(), seg);
    assert_eq!(
        branch(fx(2), fx(3), 1).to_draw_command(),
        DrawCommand::Segment { w: fx(2), l: fx(3) },
    );
    assert_eq!(
        Module::BranchApex { r: fx(1), l: fx(2), life: 0 }.to_draw_command(),
        DrawCommand::Foliage { r: fx(1), l: fx(2) },
    );
}
