//! The ordering and determinism laws of the planner, stated and proved over
//! the same specification functions the planner's contracts use.

use vstd::prelude::*;

use crate::error::Error;
use crate::generation::{
    spec_all_pins, spec_any_irq, spec_input_step_ops, spec_inputs_ops, spec_plan_matches,
    spec_plan_ops, spec_split_step, spec_splits_ops, Generator, InitPlan, Op, ResultLayout,
    Stm32f1xxGenerator,
};
use crate::stm32f1xx::{Gpio, InterruptMode, Port, Serial, PWM};

verus! {

/// Whether an operation wires a pin interrupt: routing the pin to the
/// interrupt controller, selecting its edge, or enabling its line.
pub open spec fn spec_is_wiring_op(op: Op) -> bool {
    op is MakeInterruptSource || op is TriggerOnEdge || op is EnableInterrupt
}

/// Law: planning is deterministic. Two planning results for the same
/// strategy, clock and peripheral lists are identical: the same error, or
/// plans with identical preambles, identical operation sequences, and
/// identical handle groups in identical order.
pub proof fn lemma_planning_deterministic<G: Generator>(
    g: G,
    clock: Option<usize>,
    inputs: Seq<Gpio>,
    outputs: Seq<Gpio>,
    pwms: Seq<PWM>,
    serials: Seq<Serial>,
    r1: Result<(InitPlan, ResultLayout), Error>,
    r2: Result<(InitPlan, ResultLayout), Error>,
)
    requires
        spec_plan_matches(g, clock, inputs, outputs, pwms, serials, r1),
        spec_plan_matches(g, clock, inputs, outputs, pwms, serials, r2),
    ensures
        match (r1, r2) {
            (Ok(p1), Ok(p2)) => {
                &&& p1.0.preamble@ == p2.0.preamble@
                &&& p1.0.ops@ == p2.0.ops@
                &&& p1.1.inputs@ == p2.1.inputs@
                &&& p1.1.outputs@ == p2.1.outputs@
                &&& p1.1.pwm@ == p2.1.pwm@
                &&& p1.1.channels@ == p2.1.channels@
                &&& p1.1.timers@ == p2.1.timers@
                &&& p1.1.serials@ == p2.1.serials@
            },
            (Err(e1), Err(e2)) => e1 == e2,
            _ => false,
        },
{
}

/// Whether an operation can appear in the port-split phase: acquiring the
/// bus controller or splitting a port.
spec fn spec_is_split_phase_op(op: Op) -> bool {
    op == Op::ConstrainRcc || op is SplitPort
}

proof fn lemma_split_step_ops(used: bool, rcc: bool, p: Port)
    ensures
        forall|i: int|
            0 <= i < spec_split_step(Stm32f1xxGenerator, used, rcc, p).len()
                ==> spec_is_split_phase_op(
                #[trigger] spec_split_step(Stm32f1xxGenerator, used, rcc, p)[i],
            ),
{
    let g = Stm32f1xxGenerator;
    let s = spec_split_step(g, used, rcc, p);
    assert forall|i: int| 0 <= i < s.len() implies spec_is_split_phase_op(#[trigger] s[i]) by {
        if used {
            if !rcc {
                assert(s == g.spec_bus() + g.spec_port_split(p));
                if i < g.spec_bus().len() {
                    assert(s[i] == g.spec_bus()[i]);
                } else {
                    assert(s[i] == g.spec_port_split(p)[i - 1]);
                }
            } else {
                assert(s == Seq::<Op>::empty() + g.spec_port_split(p));
                assert(s[i] == g.spec_port_split(p)[i]);
            }
        }
    }
}

/// Every operation of the port-split phase acquires the bus controller or
/// splits a port; in particular none of them freezes the clock tree and
/// none wires an interrupt.
proof fn lemma_splits_phase_ops(pins: Seq<(crate::stm32f1xx::Pin, Port)>, rcc0: bool)
    ensures
        forall|i: int|
            0 <= i < spec_splits_ops(Stm32f1xxGenerator, pins, rcc0).len()
                ==> spec_is_split_phase_op(
                #[trigger] spec_splits_ops(Stm32f1xxGenerator, pins, rcc0)[i],
            ),
{
    let g = Stm32f1xxGenerator;
    let ua = crate::generation::spec_port_used(pins, Port::A);
    let ub = crate::generation::spec_port_used(pins, Port::B);
    let uc = crate::generation::spec_port_used(pins, Port::C);
    let ud = crate::generation::spec_port_used(pins, Port::D);
    let ue = crate::generation::spec_port_used(pins, Port::E);
    let r1 = rcc0 || ua;
    let r2 = r1 || ub;
    let r3 = r2 || uc;
    let r4 = r3 || ud;
    let s1 = spec_split_step(g, ua, rcc0, Port::A);
    let s2 = spec_split_step(g, ub, r1, Port::B);
    let s3 = spec_split_step(g, uc, r2, Port::C);
    let s4 = spec_split_step(g, ud, r3, Port::D);
    let s5 = spec_split_step(g, ue, r4, Port::E);
    lemma_split_step_ops(ua, rcc0, Port::A);
    lemma_split_step_ops(ub, r1, Port::B);
    lemma_split_step_ops(uc, r2, Port::C);
    lemma_split_step_ops(ud, r3, Port::D);
    lemma_split_step_ops(ue, r4, Port::E);
    lemma_ops_concat_content(s1, s2, |op: Op| spec_is_split_phase_op(op));
    lemma_ops_concat_content(s1 + s2, s3, |op: Op| spec_is_split_phase_op(op));
    lemma_ops_concat_content(s1 + s2 + s3, s4, |op: Op| spec_is_split_phase_op(op));
    lemma_ops_concat_content(s1 + s2 + s3 + s4, s5, |op: Op| spec_is_split_phase_op(op));
    assert(spec_splits_ops(g, pins, rcc0) == s1 + s2 + s3 + s4 + s5);
}

/// Within the input phase started without the alternate-function
/// controller: every interrupt-wiring operation is preceded by its
/// acquisition, and it is acquired as soon as some pin asks for wiring.
proof fn lemma_inputs_phase_afio(inputs: Seq<Gpio>, afio0: bool)
    ensures
        forall|i: int|
            0 <= i < spec_inputs_ops(Stm32f1xxGenerator, inputs, afio0).len() && spec_is_wiring_op(
                #[trigger] spec_inputs_ops(Stm32f1xxGenerator, inputs, afio0)[i],
            ) ==> afio0 || exists|k: int|
                0 <= k < i && spec_inputs_ops(Stm32f1xxGenerator, inputs, afio0)[k]
                    == Op::ConstrainAfio,
        !afio0 && spec_any_irq(inputs) ==> exists|k: int|
            0 <= k < spec_inputs_ops(Stm32f1xxGenerator, inputs, afio0).len()
                && spec_inputs_ops(Stm32f1xxGenerator, inputs, afio0)[k] == Op::ConstrainAfio,
    decreases inputs.len(),
{
    let g = Stm32f1xxGenerator;
    let ops = spec_inputs_ops(g, inputs, afio0);
    if inputs.len() == 0 {
    } else {
        let x = inputs[0];
        let a1 = afio0 || x.interrupt_mode != InterruptMode::Disabled;
        let step = spec_input_step_ops(g, x, afio0);
        let rest = spec_inputs_ops(g, inputs.skip(1), a1);
        assert(ops == step + rest);
        lemma_inputs_phase_afio(inputs.skip(1), a1);
        // The shape of one step is concrete for this strategy.
        let has_irq = x.interrupt_mode != InterruptMode::Disabled;
        assert forall|i: int|
            0 <= i < ops.len() && spec_is_wiring_op(#[trigger] ops[i]) implies afio0 || exists|
            k: int,
        | 0 <= k < i && ops[k] == Op::ConstrainAfio by {
            if i < step.len() {
                assert(ops[i] == step[i]);
                if has_irq {
                    if !afio0 {
                        // step = [ConfigurePin, ConstrainAfio, wiring, wiring, wiring]
                        assert(step == g.spec_pin_config(x) + (g.spec_afio() + g.spec_interrupt(
                            x,
                        )));
                        assert(step.len() == 5);
                        assert(step[1] == Op::ConstrainAfio);
                        if i >= 2 {
                            assert(ops[1] == step[1]);
                            assert(exists|k: int| 0 <= k < i && ops[k] == Op::ConstrainAfio);
                        } else {
                            assert(!spec_is_wiring_op(step[0]));
                            assert(!spec_is_wiring_op(step[1]));
                        }
                    }
                } else {
                    assert(step == g.spec_pin_config(x) + Seq::<Op>::empty());
                    assert(!spec_is_wiring_op(step[0]));
                }
            } else {
                let j = i - step.len();
                assert(ops[i] == rest[j]);
                if !a1 {
                    // then afio0 is false and no acquisition happened yet;
                    // the tail clause hands back a witness inside the tail.
                    let k = choose|k: int| 0 <= k < j && rest[k] == Op::ConstrainAfio;
                    assert(ops[step.len() + k] == rest[k]);
                } else {
                    if afio0 {
                    } else {
                        // afio was acquired within this very step.
                        assert(has_irq);
                        assert(step == g.spec_pin_config(x) + (g.spec_afio() + g.spec_interrupt(
                            x,
                        )));
                        assert(step[1] == Op::ConstrainAfio);
                        assert(ops[1] == step[1]);
                        assert(exists|k: int| 0 <= k < i && ops[k] == Op::ConstrainAfio);
                    }
                }
            }
        }
        if !afio0 && spec_any_irq(inputs) {
            if has_irq {
                assert(step == g.spec_pin_config(x) + (g.spec_afio() + g.spec_interrupt(x)));
                assert(step[1] == Op::ConstrainAfio);
                assert(ops[1] == step[1]);
                assert(exists|k: int| 0 <= k < ops.len() && ops[k] == Op::ConstrainAfio);
            } else {
                crate::generation::lemma_any_irq_first(inputs);
                assert(spec_any_irq(inputs.skip(1)));
                assert(a1 == afio0);
                let k = choose|k: int| 0 <= k < rest.len() && rest[k] == Op::ConstrainAfio;
                assert(ops[step.len() + k] == rest[k]);
                assert(exists|k: int| 0 <= k < ops.len() && ops[k] == Op::ConstrainAfio);
            }
        }
    }
}

/// Law: the hardware ordering invariant. For any configuration planned for
/// the STM32F1 family with a system clock and at least one interrupt-wired
/// input pin, the clock freeze appears before every port split, and the
/// alternate-function-controller acquisition appears before every
/// interrupt-wiring operation, in the emitted operation sequence.
pub proof fn lemma_ordering_invariant(
    clock_hz: usize,
    inputs: Seq<Gpio>,
    outputs: Seq<Gpio>,
    pwms: Seq<PWM>,
    serials: Seq<Serial>,
)
    requires
        spec_any_irq(inputs),
    ensures
        ({
            let ops = spec_plan_ops(
                Stm32f1xxGenerator,
                Some(clock_hz),
                inputs,
                outputs,
                pwms,
                serials,
            );
            &&& ops.len() > 5
            &&& ops[5] == Op::FreezeClocks
            &&& forall|i: int| 0 <= i < ops.len() && (#[trigger] ops[i]) is SplitPort ==> i > 5
            &&& forall|i: int|
                0 <= i < ops.len() && spec_is_wiring_op(#[trigger] ops[i]) ==> exists|k: int|
                    0 <= k < i && ops[k] == Op::ConstrainAfio
        }),
{
    let g = Stm32f1xxGenerator;
    let ops = spec_plan_ops(g, Some(clock_hz), inputs, outputs, pwms, serials);
    let pins = spec_all_pins(inputs, outputs, pwms, serials);
    let clock_ops = g.spec_bus() + g.spec_cfgr() + g.spec_clock(clock_hz);
    let pre = g.spec_device_init() + clock_ops;
    assert(pre =~= seq![
        Op::TakePeripherals,
        Op::ConstrainFlash,
        Op::ConstrainRcc,
        Op::TakeCfgr,
        Op::ApplySysClock(clock_hz),
        Op::FreezeClocks,
    ]);
    let sp = spec_splits_ops(g, pins, true);
    let inp = spec_inputs_ops(g, inputs, false);
    let outp = crate::generation::spec_outputs_ops(g, outputs);
    let pw = crate::generation::spec_pwms_ops(g, pwms);
    let se = crate::generation::spec_serials_ops(g, serials);
    assert(ops == pre + sp + inp + outp + pw + se);
    let off_sp = pre.len() as int;
    let off_inp = off_sp + sp.len();
    let off_out = off_inp + inp.len();
    assert(pre.len() == 6);
    // The first six operations are the concrete device-init and clock-tree
    // prefix; the freeze is the last of them.
    assert forall|i: int| 0 <= i < 6 implies ops[i] == pre[i] by {
        assert((pre + sp)[i] == pre[i]);
        assert((pre + sp + inp)[i] == (pre + sp)[i]);
        assert((pre + sp + inp + outp)[i] == (pre + sp + inp)[i]);
        assert((pre + sp + inp + outp + pw)[i] == (pre + sp + inp + outp)[i]);
        assert(ops[i] == (pre + sp + inp + outp + pw)[i]);
    }
    assert(ops.len() > 5);
    assert(ops[5] == Op::FreezeClocks);
    assert forall|i: int| 0 <= i < ops.len() && (#[trigger] ops[i]) is SplitPort implies i > 5 by {
        if i <= 5 {
            assert(ops[i] == pre[i]);
        }
    }
    // Interrupt wiring: the alternate-function controller is acquired
    // inside the input phase, before the first wiring operation, and no
    // earlier phase wires anything.
    lemma_splits_phase_ops(pins, true);
    lemma_inputs_phase_afio(inputs, false);
    let kin = choose|k: int| 0 <= k < inp.len() && inp[k] == Op::ConstrainAfio;
    assert(ops[off_inp + kin] == Op::ConstrainAfio) by {
        assert((pre + sp + inp)[off_inp + kin] == inp[kin]);
        assert((pre + sp + inp + outp)[off_inp + kin] == (pre + sp + inp)[off_inp + kin]);
        assert((pre + sp + inp + outp + pw)[off_inp + kin] == (pre + sp + inp + outp)[off_inp
            + kin]);
        assert(ops[off_inp + kin] == (pre + sp + inp + outp + pw)[off_inp + kin]);
    }
    assert forall|i: int|
        0 <= i < ops.len() && spec_is_wiring_op(#[trigger] ops[i]) implies exists|k: int|
        0 <= k < i && ops[k] == Op::ConstrainAfio by {
        if i < 6 {
            assert(ops[i] == pre[i]);
            assert(false);
        } else if i < off_inp {
            assert((pre + sp)[i] == sp[i - 6]);
            assert((pre + sp + inp)[i] == (pre + sp)[i]);
            assert((pre + sp + inp + outp)[i] == (pre + sp + inp)[i]);
            assert((pre + sp + inp + outp + pw)[i] == (pre + sp + inp + outp)[i]);
            assert(ops[i] == sp[i - 6]);
            assert(spec_is_split_phase_op(sp[i - 6]));
            assert(false);
        } else if i < off_out {
            assert((pre + sp + inp)[i] == inp[i - off_inp]);
            assert((pre + sp + inp + outp)[i] == (pre + sp + inp)[i]);
            assert((pre + sp + inp + outp + pw)[i] == (pre + sp + inp + outp)[i]);
            assert(ops[i] == inp[i - off_inp]);
            let j = i - off_inp;
            assert(spec_is_wiring_op(inp[j]));
            let kj = choose|k: int| 0 <= k < j && inp[k] == Op::ConstrainAfio;
            assert((pre + sp + inp)[off_inp + kj] == inp[kj]);
            assert((pre + sp + inp + outp)[off_inp + kj] == (pre + sp + inp)[off_inp + kj]);
            assert((pre + sp + inp + outp + pw)[off_inp + kj] == (pre + sp + inp + outp)[off_inp
                + kj]);
            assert(ops[off_inp + kj] == inp[kj]);
        } else {
            assert(0 <= off_inp + kin < i && ops[off_inp + kin] == Op::ConstrainAfio);
        }
    }
}

/// Every element of a concatenation satisfies a property its two parts
/// satisfy elementwise.
proof fn lemma_ops_concat_content(a: Seq<Op>, b: Seq<Op>, pred: spec_fn(Op) -> bool)
    requires
        forall|i: int| 0 <= i < a.len() ==> pred(#[trigger] a[i]),
        forall|i: int| 0 <= i < b.len() ==> pred(#[trigger] b[i]),
    ensures
        forall|i: int| 0 <= i < (a + b).len() ==> pred(#[trigger] (a + b)[i]),
{
    assert forall|i: int| 0 <= i < (a + b).len() implies pred(#[trigger] (a + b)[i]) by {
        if i < a.len() {
            assert((a + b)[i] == a[i]);
        } else {
            assert((a + b)[i] == b[i - a.len()]);
        }
    }
}

/// A sequence none of whose elements satisfies the predicate filters to the
/// empty sequence.
proof fn lemma_filter_none(s: Seq<Op>, pred: spec_fn(Op) -> bool)
    requires
        forall|i: int| 0 <= i < s.len() ==> !pred(#[trigger] s[i]),
    ensures
        s.filter(pred) == Seq::<Op>::empty(),
    decreases s.len(),
{
    reveal(Seq::filter);
    if s.len() > 0 {
        lemma_filter_none(s.drop_last(), pred);
    }
    assert(s.filter(pred) =~= Seq::<Op>::empty());
}

/// Content of one PWM block's operations: channel wiring and frequency
/// setting only.
proof fn lemma_pwm_block_content(p: PWM)
    ensures
        forall|i: int|
            0 <= i < Stm32f1xxGenerator.spec_pwm(p.timer.id, p.pins@, p.frequency).len() ==> {
                let op = #[trigger] Stm32f1xxGenerator.spec_pwm(p.timer.id, p.pins@, p.frequency)[i];
                op is ConfigurePwmChannel || op is SetPwmFrequency
            },
{
    let g = Stm32f1xxGenerator;
    let s = g.spec_pwm(p.timer.id, p.pins@, p.frequency);
    let mapped = p.pins@.map_values(
        |pp: (crate::stm32f1xx::Pin, Port)| Op::ConfigurePwmChannel(p.timer.id, pp.0, pp.1),
    );
    assert forall|i: int| 0 <= i < s.len() implies {
        let op = #[trigger] s[i];
        op is ConfigurePwmChannel || op is SetPwmFrequency
    } by {
        if i < mapped.len() {
            assert(s[i] == mapped[i]);
        } else {
            assert(s[i] == (match p.frequency {
                Some(f) => seq![Op::SetPwmFrequency(p.timer.id, f.0)],
                None => Seq::<Op>::empty(),
            })[i - mapped.len()]);
        }
    }
}

/// Elementwise content carries from the pieces of a flat-map to the whole.
proof fn lemma_flat_map_content<A>(s: Seq<A>, f: spec_fn(A) -> Seq<Op>, pred: spec_fn(Op) -> bool)
    requires
        forall|j: int, i: int|
            0 <= j < s.len() && 0 <= i < f(#[trigger] s[j]).len() ==> pred(#[trigger] f(s[j])[i]),
    ensures
        forall|i: int| 0 <= i < s.flat_map(f).len() ==> pred(#[trigger] s.flat_map(f)[i]),
    decreases s.len(),
{
    if s.len() == 0 {
        assert(s.map_values(f) =~= Seq::<Seq<Op>>::empty());
        reveal_with_fuel(Seq::<Op>::flatten, 2);
        assert(s.flat_map(f) =~= Seq::<Op>::empty());
    } else {
        let t = s.drop_last();
        lemma_flat_map_content(t, f, pred);
        t.lemma_flat_map_push(f, s.last());
        assert(t.push(s.last()) =~= s);
        assert(s.flat_map(f) == t.flat_map(f) + f(s.last()));
        assert(forall|i: int|
            0 <= i < f(s.last()).len() ==> pred(#[trigger] f(s.last())[i])) by {
            assert(s[s.len() - 1] == s.last());
        }
        lemma_ops_concat_content(t.flat_map(f), f(s.last()), pred);
    }
}

/// The pin-configuration operation of one GPIO entry.
pub open spec fn spec_config_op_of(g: Gpio) -> Op {
    Op::ConfigurePin(g.pin, g.port, g.mode)
}

/// A singleton whose element satisfies the predicate filters to itself.
proof fn lemma_filter_singleton_true(op: Op, pred: spec_fn(Op) -> bool)
    requires
        pred(op),
    ensures
        seq![op].filter(pred) == seq![op],
{
    reveal_with_fuel(Seq::<Op>::filter, 3);
    assert(seq![op].drop_last() =~= Seq::<Op>::empty());
    assert(seq![op].filter(pred) =~= seq![op]);
}

/// Filtering the input phase down to pin configurations gives exactly one
/// configuration per input pin, in list order.
#[verifier::rlimit(100)]
#[verifier::spinoff_prover]
proof fn lemma_inputs_phase_pin_configs(inputs: Seq<Gpio>, afio0: bool)
    ensures
        spec_inputs_ops(Stm32f1xxGenerator, inputs, afio0).filter(|op: Op| op is ConfigurePin)
            == inputs.map_values(|g: Gpio| spec_config_op_of(g)),
    decreases inputs.len(),
{
    let g = Stm32f1xxGenerator;
    let pred = |op: Op| op is ConfigurePin;
    let ops = spec_inputs_ops(g, inputs, afio0);
    if inputs.len() == 0 {
        reveal(Seq::filter);
        assert(ops.filter(pred) =~= inputs.map_values(|x: Gpio| spec_config_op_of(x)));
    } else {
        let x = inputs[0];
        let a1 = afio0 || x.interrupt_mode != InterruptMode::Disabled;
        let step = spec_input_step_ops(g, x, afio0);
        let rest = spec_inputs_ops(g, inputs.skip(1), a1);
        lemma_inputs_phase_pin_configs(inputs.skip(1), a1);
        assert(ops == step + rest);
        // one step filters to exactly the pin configuration of its pin
        let tail = if x.interrupt_mode == InterruptMode::Disabled {
            Seq::<Op>::empty()
        } else {
            (if afio0 {
                Seq::<Op>::empty()
            } else {
                g.spec_afio()
            }) + g.spec_interrupt(x)
        };
        assert(step == g.spec_pin_config(x) + tail);
        assert(forall|i: int| 0 <= i < tail.len() ==> !pred(#[trigger] tail[i])) by {
            if x.interrupt_mode != InterruptMode::Disabled {
                let afio_part: Seq<Op> = if afio0 {
                    Seq::<Op>::empty()
                } else {
                    g.spec_afio()
                };
                assert forall|i: int| 0 <= i < tail.len() implies !pred(#[trigger] tail[i]) by {
                    if i < afio_part.len() {
                        assert(tail[i] == afio_part[i]);
                    } else {
                        assert(tail[i] == g.spec_interrupt(x)[i - afio_part.len()]);
                    }
                }
            }
        }
        lemma_filter_none(tail, pred);
        assert(g.spec_pin_config(x) == seq![spec_config_op_of(x)]);
        lemma_filter_singleton_true(spec_config_op_of(x), pred);
        Seq::filter_distributes_over_add(g.spec_pin_config(x), tail, pred);
        assert(seq![spec_config_op_of(x)] + Seq::<Op>::empty() =~= seq![spec_config_op_of(x)]);
        assert(step.filter(pred) == seq![spec_config_op_of(x)]);
        Seq::filter_distributes_over_add(step, rest, pred);
        assert(rest.filter(pred) == inputs.skip(1).map_values(|y: Gpio| spec_config_op_of(y)));
        assert(ops.filter(pred) == seq![spec_config_op_of(x)] + inputs.skip(1).map_values(
            |y: Gpio| spec_config_op_of(y),
        ));
        assert(ops.filter(pred) =~= inputs.map_values(|y: Gpio| spec_config_op_of(y)));
    }
}

/// Filtering the output phase down to pin configurations gives exactly one
/// configuration per output pin, in list order.
#[verifier::rlimit(100)]
#[verifier::spinoff_prover]
proof fn lemma_outputs_phase_pin_configs(outputs: Seq<Gpio>)
    ensures
        crate::generation::spec_outputs_ops(Stm32f1xxGenerator, outputs).filter(
            |op: Op| op is ConfigurePin,
        ) == outputs.map_values(|g: Gpio| spec_config_op_of(g)),
    decreases outputs.len(),
{
    let g = Stm32f1xxGenerator;
    let pred = |op: Op| op is ConfigurePin;
    let f = |x: Gpio| g.spec_pin_config(x);
    let ops = outputs.flat_map(f);
    if outputs.len() == 0 {
        reveal(Seq::filter);
        assert(outputs.map_values(f) =~= Seq::<Seq<Op>>::empty());
        reveal_with_fuel(Seq::<Op>::flatten, 2);
        assert(ops =~= Seq::<Op>::empty());
        assert(ops.filter(pred) =~= outputs.map_values(|x: Gpio| spec_config_op_of(x)));
    } else {
        let t = outputs.drop_last();
        lemma_outputs_phase_pin_configs(t);
        t.lemma_flat_map_push(f, outputs.last());
        assert(t.push(outputs.last()) =~= outputs);
        assert(ops == t.flat_map(f) + f(outputs.last()));
        assert(f(outputs.last()) == seq![spec_config_op_of(outputs.last())]);
        lemma_filter_singleton_true(spec_config_op_of(outputs.last()), pred);
        Seq::filter_distributes_over_add(t.flat_map(f), f(outputs.last()), pred);
        assert(ops.filter(pred) == t.flat_map(f).filter(pred) + f(outputs.last()).filter(pred));
        assert(ops.filter(pred) =~= outputs.map_values(|y: Gpio| spec_config_op_of(y)));
    }
}

/// The PWM phase contains no pin-configuration operation.
proof fn lemma_pwm_phase_filter_empty(pwms: Seq<PWM>)
    ensures
        crate::generation::spec_pwms_ops(Stm32f1xxGenerator, pwms).filter(
            |op: Op| op is ConfigurePin,
        ) == Seq::<Op>::empty(),
{
    let g = Stm32f1xxGenerator;
    let pred = |op: Op| op is ConfigurePin;
    let fpw = |p: PWM| g.spec_pwm(p.timer.id, p.pins@, p.frequency);
    let notcfg = |op: Op| !(op is ConfigurePin);
    assert forall|j: int, i: int|
        0 <= j < pwms.len() && 0 <= i < fpw(#[trigger] pwms[j]).len() implies notcfg(
        #[trigger] fpw(pwms[j])[i],
    ) by {
        lemma_pwm_block_content(pwms[j]);
    }
    lemma_flat_map_content(pwms, fpw, notcfg);
    let pw = crate::generation::spec_pwms_ops(g, pwms);
    assert(pw == pwms.flat_map(fpw));
    assert(forall|i: int| 0 <= i < pw.len() ==> !pred(#[trigger] pw[i]));
    lemma_filter_none(pw, pred);
}

/// The serial phase contains no pin-configuration operation.
proof fn lemma_serial_phase_filter_empty(serials: Seq<Serial>)
    ensures
        crate::generation::spec_serials_ops(Stm32f1xxGenerator, serials).filter(
            |op: Op| op is ConfigurePin,
        ) == Seq::<Op>::empty(),
{
    let g = Stm32f1xxGenerator;
    let pred = |op: Op| op is ConfigurePin;
    let fse = |x: Serial| g.spec_serial(x);
    let notcfg = |op: Op| !(op is ConfigurePin);
    assert forall|j: int, i: int|
        0 <= j < serials.len() && 0 <= i < fse(#[trigger] serials[j]).len() implies notcfg(
        #[trigger] fse(serials[j])[i],
    ) by {
        assert(fse(serials[j]) == seq![
            Op::ConfigureSerial(serials[j].id, serials[j].baud_rate.0),
        ]);
    }
    lemma_flat_map_content(serials, fse, notcfg);
    let se = crate::generation::spec_serials_ops(g, serials);
    assert(se == serials.flat_map(fse));
    assert(forall|i: int| 0 <= i < se.len() ==> !pred(#[trigger] se[i]));
    lemma_filter_none(se, pred);
}

/// The device-init and clock-tree prefix contains no pin-configuration
/// operation.
proof fn lemma_prefix_filter_empty(clock: Option<usize>)
    ensures
        ({
            let g = Stm32f1xxGenerator;
            let clock_ops: Seq<Op> = match clock {
                Some(f) => g.spec_bus() + g.spec_cfgr() + g.spec_clock(f),
                None => Seq::<Op>::empty(),
            };
            (g.spec_device_init() + clock_ops).filter(|op: Op| op is ConfigurePin) == Seq::<
                Op,
            >::empty()
        }),
{
    let g = Stm32f1xxGenerator;
    let pred = |op: Op| op is ConfigurePin;
    let clock_ops: Seq<Op> = match clock {
        Some(f) => g.spec_bus() + g.spec_cfgr() + g.spec_clock(f),
        None => Seq::<Op>::empty(),
    };
    let pre = g.spec_device_init() + clock_ops;
    assert(forall|i: int| 0 <= i < pre.len() ==> !pred(#[trigger] pre[i])) by {
        match clock {
            Some(f) => {
                assert(pre =~= seq![
                    Op::TakePeripherals,
                    Op::ConstrainFlash,
                    Op::ConstrainRcc,
                    Op::TakeCfgr,
                    Op::ApplySysClock(f),
                    Op::FreezeClocks,
                ]);
            },
            None => {
                assert(pre =~= seq![Op::TakePeripherals, Op::ConstrainFlash]);
            },
        }
    }
    lemma_filter_none(pre, pred);
}

/// The port-split phase contains no pin-configuration operation.
proof fn lemma_splits_filter_empty(pins: Seq<(crate::stm32f1xx::Pin, Port)>, rcc0: bool)
    ensures
        spec_splits_ops(Stm32f1xxGenerator, pins, rcc0).filter(|op: Op| op is ConfigurePin)
            == Seq::<Op>::empty(),
{
    let pred = |op: Op| op is ConfigurePin;
    let sp = spec_splits_ops(Stm32f1xxGenerator, pins, rcc0);
    lemma_splits_phase_ops(pins, rcc0);
    assert(forall|i: int| 0 <= i < sp.len() ==> !pred(#[trigger] sp[i]));
    lemma_filter_none(sp, pred);
}

/// Law: the plan and the result layout are mutually consistent. In the
/// operation sequence planned for the STM32F1 family, the pin-configuration
/// operations, in emission order, correspond one to one with the input
/// handles followed by the output handles of the result layout: the n-th
/// configuration writes the pin recorded at the n-th position.
#[verifier::rlimit(100)]
#[verifier::spinoff_prover]
pub proof fn lemma_plan_layout_consistent(
    clock: Option<usize>,
    inputs: Seq<Gpio>,
    outputs: Seq<Gpio>,
    pwms: Seq<PWM>,
    serials: Seq<Serial>,
)
    ensures
        ({
            let ops = spec_plan_ops(Stm32f1xxGenerator, clock, inputs, outputs, pwms, serials);
            let handles = crate::generation::spec_gpio_handles(inputs)
                + crate::generation::spec_gpio_handles(outputs);
            ops.filter(|op: Op| op is ConfigurePin) == handles.map_values(
                |h: crate::generation::InitializedGpio| Op::ConfigurePin(h.pin, h.port, h.mode),
            )
        }),
{
    let g = Stm32f1xxGenerator;
    let pred = |op: Op| op is ConfigurePin;
    let ops = spec_plan_ops(g, clock, inputs, outputs, pwms, serials);
    let pins = spec_all_pins(inputs, outputs, pwms, serials);
    let clock_ops: Seq<Op> = match clock {
        Some(f) => g.spec_bus() + g.spec_cfgr() + g.spec_clock(f),
        None => Seq::<Op>::empty(),
    };
    let pre = g.spec_device_init() + clock_ops;
    let sp = spec_splits_ops(g, pins, clock is Some);
    let inp = spec_inputs_ops(g, inputs, false);
    let outp = crate::generation::spec_outputs_ops(g, outputs);
    let pw = crate::generation::spec_pwms_ops(g, pwms);
    let se = crate::generation::spec_serials_ops(g, serials);
    assert(ops == pre + sp + inp + outp + pw + se);
    lemma_prefix_filter_empty(clock);
    lemma_splits_filter_empty(pins, clock is Some);
    lemma_pwm_phase_filter_empty(pwms);
    lemma_serial_phase_filter_empty(serials);
    lemma_inputs_phase_pin_configs(inputs, false);
    lemma_outputs_phase_pin_configs(outputs);
    lemma_filter_six_phases(
        pre,
        sp,
        inp,
        outp,
        pw,
        se,
        pred,
        inputs.map_values(|x: Gpio| spec_config_op_of(x)),
        outputs.map_values(|x: Gpio| spec_config_op_of(x)),
    );
    lemma_handle_configs(inputs, outputs);
}

/// Filtering a six-phase concatenation in which only the third and fourth
/// phases contribute gives their contributions, concatenated.
proof fn lemma_filter_six_phases(
    pre: Seq<Op>,
    sp: Seq<Op>,
    inp: Seq<Op>,
    outp: Seq<Op>,
    pw: Seq<Op>,
    se: Seq<Op>,
    pred: spec_fn(Op) -> bool,
    a: Seq<Op>,
    b: Seq<Op>,
)
    requires
        pre.filter(pred) == Seq::<Op>::empty(),
        sp.filter(pred) == Seq::<Op>::empty(),
        inp.filter(pred) == a,
        outp.filter(pred) == b,
        pw.filter(pred) == Seq::<Op>::empty(),
        se.filter(pred) == Seq::<Op>::empty(),
    ensures
        (pre + sp + inp + outp + pw + se).filter(pred) == a + b,
{
    Seq::filter_distributes_over_add(pre + sp + inp + outp + pw, se, pred);
    Seq::filter_distributes_over_add(pre + sp + inp + outp, pw, pred);
    Seq::filter_distributes_over_add(pre + sp + inp, outp, pred);
    Seq::filter_distributes_over_add(pre + sp, inp, pred);
    Seq::filter_distributes_over_add(pre, sp, pred);
    let none: Seq<Op> = Seq::empty();
    assert(none + none =~= none);
    assert(none + a =~= a);
    assert(a + b + none =~= a + b);
    assert(a + b + none + none =~= a + b);
}

/// The pin configurations of the input and output lists are exactly the
/// configurations of the corresponding layout handles, in order.
proof fn lemma_handle_configs(inputs: Seq<Gpio>, outputs: Seq<Gpio>)
    ensures
        (crate::generation::spec_gpio_handles(inputs) + crate::generation::spec_gpio_handles(
            outputs,
        )).map_values(
            |h: crate::generation::InitializedGpio| Op::ConfigurePin(h.pin, h.port, h.mode),
        ) == inputs.map_values(|x: Gpio| spec_config_op_of(x)) + outputs.map_values(
            |x: Gpio| spec_config_op_of(x),
        ),
{
    let hin = crate::generation::spec_gpio_handles(inputs);
    let hout = crate::generation::spec_gpio_handles(outputs);
    let hcfg = |h: crate::generation::InitializedGpio| Op::ConfigurePin(h.pin, h.port, h.mode);
    assert forall|i: int| 0 <= i < (hin + hout).len() implies (hin + hout).map_values(hcfg)[i]
        == (inputs.map_values(|x: Gpio| spec_config_op_of(x)) + outputs.map_values(
        |x: Gpio| spec_config_op_of(x),
    ))[i] by {
        if i < hin.len() {
            assert((hin + hout)[i] == hin[i]);
        } else {
            assert((hin + hout)[i] == hout[i - hin.len()]);
        }
    }
    assert((hin + hout).map_values(hcfg) =~= inputs.map_values(|x: Gpio| spec_config_op_of(x))
        + outputs.map_values(|x: Gpio| spec_config_op_of(x)));
}

} // verus!
