//! The device configuration tree: a closed set of device-family variants,
//! each holding the system settings and the per-peripheral-class lists, and
//! all exposing the same query surface. Adding a family means adding a
//! variant and a lowering strategy, never touching the planner.

use vstd::prelude::*;

use crate::error::Error;
use crate::generation::{
    get_init_block, spec_plan_matches, DeviceGenerator, DummyGenerator, Generator, InitPlan, Op,
    ResultLayout, Stm32f1xxGenerator,
};
use crate::stm32f1xx::{Gpio, Serial, PWM};
use crate::types::{spec_sys_clock, Sys};

verus! {

/// A device configuration: one variant per device family, each holding the
/// system settings and the GPIO, PWM and serial lists.
#[derive(Clone, Debug)]
pub enum Config {
    Dummy { sys: Sys, gpios: Vec<Gpio>, pwm: Vec<PWM>, serial: Vec<Serial> },
    Stm32f1xx { sys: Sys, gpios: Vec<Gpio>, pwm: Vec<PWM>, serial: Vec<Serial> },
}

/// The GPIO entries that configure inputs, in list order.
pub open spec fn spec_input_pins(s: Seq<Gpio>) -> Seq<Gpio> {
    s.filter(|g: Gpio| g.mode.spec_is_input())
}

/// The GPIO entries that configure outputs, in list order.
pub open spec fn spec_output_pins(s: Seq<Gpio>) -> Seq<Gpio> {
    s.filter(|g: Gpio| !g.mode.spec_is_input())
}

/// The system clock of a configuration, in hertz, as the planner receives
/// it.
pub open spec fn spec_clock_hz(sys: Sys) -> Option<usize> {
    match spec_sys_clock(sys) {
        Option::Some(hz) => Option::Some(hz as usize),
        Option::None => Option::None,
    }
}

impl Config {
    /// The system settings of this configuration.
    pub open spec fn spec_sys(&self) -> Sys {
        match *self {
            Config::Dummy { sys, .. } => sys,
            Config::Stm32f1xx { sys, .. } => sys,
        }
    }

    /// The GPIO list of this configuration.
    pub open spec fn spec_gpios(&self) -> Seq<Gpio> {
        match *self {
            Config::Dummy { ref gpios, .. } => gpios@,
            Config::Stm32f1xx { ref gpios, .. } => gpios@,
        }
    }

    /// The PWM list of this configuration.
    pub open spec fn spec_pwm(&self) -> Seq<PWM> {
        match *self {
            Config::Dummy { ref pwm, .. } => pwm@,
            Config::Stm32f1xx { ref pwm, .. } => pwm@,
        }
    }

    /// The serial list of this configuration.
    pub open spec fn spec_serials(&self) -> Seq<Serial> {
        match *self {
            Config::Dummy { ref serial, .. } => serial@,
            Config::Stm32f1xx { ref serial, .. } => serial@,
        }
    }

    /// The lowering strategy this configuration's family selects.
    pub open spec fn spec_generator(&self) -> DeviceGenerator {
        match *self {
            Config::Dummy { .. } => DeviceGenerator::Dummy(DummyGenerator),
            Config::Stm32f1xx { .. } => DeviceGenerator::Stm32f1xx(Stm32f1xxGenerator),
        }
    }

    /// The system settings of this configuration.
    pub fn sys(&self) -> (r: &Sys)
        ensures
            *r == self.spec_sys(),
    {
        match self {
            Config::Dummy { sys, .. } => sys,
            Config::Stm32f1xx { sys, .. } => sys,
        }
    }

    /// The GPIO list of this configuration.
    pub fn gpios(&self) -> (r: &Vec<Gpio>)
        ensures
            r@ == self.spec_gpios(),
    {
        match self {
            Config::Dummy { gpios, .. } => gpios,
            Config::Stm32f1xx { gpios, .. } => gpios,
        }
    }

    /// The PWM list of this configuration.
    pub fn pwm(&self) -> (r: &Vec<PWM>)
        ensures
            r@ == self.spec_pwm(),
    {
        match self {
            Config::Dummy { pwm, .. } => pwm,
            Config::Stm32f1xx { pwm, .. } => pwm,
        }
    }

    /// The serial list of this configuration.
    pub fn serials(&self) -> (r: &Vec<Serial>)
        ensures
            r@ == self.spec_serials(),
    {
        match self {
            Config::Dummy { serial, .. } => serial,
            Config::Stm32f1xx { serial, .. } => serial,
        }
    }

    /// The lowering strategy this configuration's family selects.
    pub fn generator(&self) -> (r: DeviceGenerator)
        ensures
            r == self.spec_generator(),
    {
        match self {
            Config::Dummy { .. } => DeviceGenerator::Dummy(DummyGenerator),
            Config::Stm32f1xx { .. } => DeviceGenerator::Stm32f1xx(Stm32f1xxGenerator),
        }
    }

    /// The GPIO entries that configure inputs, in list order.
    pub fn input_pins(&self) -> (r: Vec<Gpio>)
        ensures
            r@ == spec_input_pins(self.spec_gpios()),
    {
        let gpios = self.gpios();
        let ghost pred = |g: Gpio| g.mode.spec_is_input();
        let mut out: Vec<Gpio> = Vec::new();
        for i in 0..gpios.len()
            invariant
                pred == (|g: Gpio| g.mode.spec_is_input()),
                out@ == gpios@.take(i as int).filter(pred),
        {
            let g = gpios[i];
            if g.mode.is_input() {
                out.push(g);
            }
            proof {
                reveal(Seq::filter);
                assert(gpios@.take(i + 1).drop_last() =~= gpios@.take(i as int));
                assert(gpios@.take(i + 1).last() == gpios@[i as int]);
            }
        }
        proof {
            assert(gpios@.take(gpios@.len() as int) =~= gpios@);
        }
        out
    }

    /// The GPIO entries that configure outputs, in list order.
    pub fn output_pins(&self) -> (r: Vec<Gpio>)
        ensures
            r@ == spec_output_pins(self.spec_gpios()),
    {
        let gpios = self.gpios();
        let ghost pred = |g: Gpio| !g.mode.spec_is_input();
        let mut out: Vec<Gpio> = Vec::new();
        for i in 0..gpios.len()
            invariant
                pred == (|g: Gpio| !g.mode.spec_is_input()),
                out@ == gpios@.take(i as int).filter(pred),
        {
            let g = gpios[i];
            if !g.mode.is_input() {
                out.push(g);
            }
            proof {
                reveal(Seq::filter);
                assert(gpios@.take(i + 1).drop_last() =~= gpios@.take(i as int));
                assert(gpios@.take(i + 1).last() == gpios@[i as int]);
            }
        }
        proof {
            assert(gpios@.take(gpios@.len() as int) =~= gpios@);
        }
        out
    }

    /// Builds the initialization plan and the result layout for this
    /// configuration: the single exclusivity/range gate runs first, then
    /// the dependency-ordered planner, through the family's lowering
    /// strategy. All-or-nothing: a complete plan, or the first error.
    pub fn build_plan(&self) -> (r: Result<(InitPlan, ResultLayout), Error>)
        requires
            spec_sys_clock(self.spec_sys()) matches Some(hz) ==> hz <= u32::MAX,
        ensures
            ({
                let inputs = spec_input_pins(self.spec_gpios());
                let outputs = spec_output_pins(self.spec_gpios());
                let clock = spec_clock_hz(self.spec_sys());
                match self.spec_generator() {
                    DeviceGenerator::Dummy(g) => spec_plan_matches(
                        g,
                        clock,
                        inputs,
                        outputs,
                        self.spec_pwm(),
                        self.spec_serials(),
                        r,
                    ),
                    DeviceGenerator::Stm32f1xx(g) => spec_plan_matches(
                        g,
                        clock,
                        inputs,
                        outputs,
                        self.spec_pwm(),
                        self.spec_serials(),
                        r,
                    ),
                }
            }),
    {
        let inputs = self.input_pins();
        let outputs = self.output_pins();
        let clock = self.sys().sys_clock();
        match self.generator() {
            DeviceGenerator::Dummy(g) => get_init_block(
                g,
                clock,
                &inputs,
                &outputs,
                self.pwm(),
                self.serials(),
            ),
            DeviceGenerator::Stm32f1xx(g) => get_init_block(
                g,
                clock,
                &inputs,
                &outputs,
                self.pwm(),
                self.serials(),
            ),
        }
    }

    /// The flat statement list of a successful plan: the declaration/import
    /// preamble followed by the ordered operations.
    pub fn init_statements(&self) -> (r: Result<Vec<Op>, Error>)
        requires
            spec_sys_clock(self.spec_sys()) matches Some(hz) ==> hz <= u32::MAX,
        ensures
            ({
                let inputs = spec_input_pins(self.spec_gpios());
                let outputs = spec_output_pins(self.spec_gpios());
                let clock = spec_clock_hz(self.spec_sys());
                match self.spec_generator() {
                    DeviceGenerator::Dummy(g) => spec_statements_match(
                        g,
                        clock,
                        inputs,
                        outputs,
                        self.spec_pwm(),
                        self.spec_serials(),
                        r,
                    ),
                    DeviceGenerator::Stm32f1xx(g) => spec_statements_match(
                        g,
                        clock,
                        inputs,
                        outputs,
                        self.spec_pwm(),
                        self.spec_serials(),
                        r,
                    ),
                }
            }),
    {
        match self.build_plan() {
            Ok((plan, _layout)) => {
                let mut v = plan.preamble;
                let mut ops = plan.ops;
                v.append(&mut ops);
                Ok(v)
            },
            Err(e) => Err(e),
        }
    }

    /// The interrupt-unmask statements of this configuration: one per
    /// interrupt-wired input pin, in list order, then one per serial block.
    pub fn interrupt_unmasks(&self) -> (r: Vec<Op>)
        ensures
            ({
                match self.spec_generator() {
                    DeviceGenerator::Dummy(g) => r@ == spec_unmask_ops(
                        g,
                        self.spec_gpios(),
                        self.spec_serials(),
                    ),
                    DeviceGenerator::Stm32f1xx(g) => r@ == spec_unmask_ops(
                        g,
                        self.spec_gpios(),
                        self.spec_serials(),
                    ),
                }
            }),
    {
        match self.generator() {
            DeviceGenerator::Dummy(g) => unmask_ops(g, self.gpios(), self.serials()),
            DeviceGenerator::Stm32f1xx(g) => unmask_ops(g, self.gpios(), self.serials()),
        }
    }
}

/// Builds the identifiers of a GPIO list, in order.
fn gpio_idents(v: &Vec<Gpio>) -> (r: Vec<String>)
    requires
        forall|i: int| 0 <= i < v@.len() ==> (#[trigger] v@[i]).pin.0 <= 15,
    ensures
        r@.len() == v@.len(),
        forall|i: int|
            0 <= i < v@.len() ==> (#[trigger] r@[i])@ == crate::stm32f1xx::spec_gpio_ident(
                v@[i].pin,
                v@[i].port,
            ),
{
    let mut out: Vec<String> = Vec::new();
    for i in 0..v.len()
        invariant
            forall|k: int| 0 <= k < v@.len() ==> (#[trigger] v@[k]).pin.0 <= 15,
            out@.len() == i,
            forall|k: int|
                0 <= k < i ==> (#[trigger] out@[k])@ == crate::stm32f1xx::spec_gpio_ident(
                    v@[k].pin,
                    v@[k].port,
                ),
    {
        out.push(crate::stm32f1xx::gpio_ident(v[i].pin, v[i].port));
    }
    out
}

/// Builds the full handle type names of a GPIO list, in order.
fn gpio_tys(v: &Vec<Gpio>) -> (r: Vec<String>)
    requires
        forall|i: int| 0 <= i < v@.len() ==> (#[trigger] v@[i]).pin.0 <= 15,
    ensures
        r@.len() == v@.len(),
        forall|i: int|
            0 <= i < v@.len() ==> (#[trigger] r@[i])@ == crate::generation::spec_gpio_ty(
                v@[i].pin,
                v@[i].port,
                v@[i].mode,
            ),
{
    let mut out: Vec<String> = Vec::new();
    for i in 0..v.len()
        invariant
            forall|k: int| 0 <= k < v@.len() ==> (#[trigger] v@[k]).pin.0 <= 15,
            out@.len() == i,
            forall|k: int|
                0 <= k < i ==> (#[trigger] out@[k])@ == crate::generation::spec_gpio_ty(
                    v@[k].pin,
                    v@[k].port,
                    v@[k].mode,
                ),
    {
        let h = crate::generation::InitializedGpio {
            pin: v[i].pin,
            port: v[i].port,
            mode: v[i].mode,
        };
        out.push(h.ty());
    }
    out
}

impl Config {
    /// The identifiers of the input handles, in layout order.
    pub fn input_idents(&self) -> (r: Vec<String>)
        requires
            forall|i: int|
                0 <= i < spec_input_pins(self.spec_gpios()).len() ==> (#[trigger] spec_input_pins(
                    self.spec_gpios(),
                )[i]).pin.0 <= 15,
        ensures
            r@.len() == spec_input_pins(self.spec_gpios()).len(),
            forall|i: int|
                0 <= i < r@.len() ==> (#[trigger] r@[i])@ == crate::stm32f1xx::spec_gpio_ident(
                    spec_input_pins(self.spec_gpios())[i].pin,
                    spec_input_pins(self.spec_gpios())[i].port,
                ),
    {
        gpio_idents(&self.input_pins())
    }

    /// The full type names of the input handles, in layout order.
    pub fn input_tys(&self) -> (r: Vec<String>)
        requires
            forall|i: int|
                0 <= i < spec_input_pins(self.spec_gpios()).len() ==> (#[trigger] spec_input_pins(
                    self.spec_gpios(),
                )[i]).pin.0 <= 15,
        ensures
            r@.len() == spec_input_pins(self.spec_gpios()).len(),
            forall|i: int|
                0 <= i < r@.len() ==> (#[trigger] r@[i])@ == crate::generation::spec_gpio_ty(
                    spec_input_pins(self.spec_gpios())[i].pin,
                    spec_input_pins(self.spec_gpios())[i].port,
                    spec_input_pins(self.spec_gpios())[i].mode,
                ),
    {
        gpio_tys(&self.input_pins())
    }

    /// The identifiers of the output handles, in layout order.
    pub fn output_idents(&self) -> (r: Vec<String>)
        requires
            forall|i: int|
                0 <= i < spec_output_pins(self.spec_gpios()).len() ==> (
                #[trigger] spec_output_pins(self.spec_gpios())[i]).pin.0 <= 15,
        ensures
            r@.len() == spec_output_pins(self.spec_gpios()).len(),
            forall|i: int|
                0 <= i < r@.len() ==> (#[trigger] r@[i])@ == crate::stm32f1xx::spec_gpio_ident(
                    spec_output_pins(self.spec_gpios())[i].pin,
                    spec_output_pins(self.spec_gpios())[i].port,
                ),
    {
        gpio_idents(&self.output_pins())
    }

    /// The full type names of the output handles, in layout order.
    pub fn output_tys(&self) -> (r: Vec<String>)
        requires
            forall|i: int|
                0 <= i < spec_output_pins(self.spec_gpios()).len() ==> (
                #[trigger] spec_output_pins(self.spec_gpios())[i]).pin.0 <= 15,
        ensures
            r@.len() == spec_output_pins(self.spec_gpios()).len(),
            forall|i: int|
                0 <= i < r@.len() ==> (#[trigger] r@[i])@ == crate::generation::spec_gpio_ty(
                    spec_output_pins(self.spec_gpios())[i].pin,
                    spec_output_pins(self.spec_gpios())[i].port,
                    spec_output_pins(self.spec_gpios())[i].mode,
                ),
    {
        gpio_tys(&self.output_pins())
    }

    /// The PWM channel pins of this configuration, flattened in block and
    /// pin order.
    pub fn pwm_pins(&self) -> (r: Vec<(crate::stm32f1xx::Pin, crate::stm32f1xx::Port)>)
        ensures
            r@ == crate::stm32f1xx::spec_pwm_pins(self.spec_pwm()),
    {
        let pwms = self.pwm();
        let mut out: Vec<(crate::stm32f1xx::Pin, crate::stm32f1xx::Port)> = Vec::new();
        for i in 0..pwms.len()
            invariant
                out@ == crate::stm32f1xx::spec_pwm_pins(pwms@.take(i as int)),
        {
            let ghost before = out@;
            let block = &pwms[i];
            for j in 0..block.pins.len()
                invariant
                    0 <= i < pwms@.len(),
                    block == &pwms@[i as int],
                    before == crate::stm32f1xx::spec_pwm_pins(pwms@.take(i as int)),
                    out@ == before + block.pins@.take(j as int),
            {
                out.push(block.pins[j]);
                proof {
                    assert(block.pins@.take(j + 1) =~= block.pins@.take(j as int).push(
                        block.pins@[j as int],
                    ));
                    assert(out@ =~= before + block.pins@.take(j + 1));
                }
            }
            proof {
                let f = |p: PWM| p.pins@;
                assert(block.pins@.take(block.pins@.len() as int) =~= block.pins@);
                pwms@.lemma_flat_map_take_append(f, i as int);
                assert(out@ =~= crate::stm32f1xx::spec_pwm_pins(pwms@.take(i + 1)));
            }
        }
        proof {
            assert(pwms@.take(pwms@.len() as int) =~= pwms@);
        }
        out
    }

    /// The identifiers of the PWM channel handles, in layout order.
    pub fn pwm_idents(&self) -> (r: Vec<String>)
        requires
            forall|i: int|
                0 <= i < crate::stm32f1xx::spec_pwm_pins(self.spec_pwm()).len() ==> (
                #[trigger] crate::stm32f1xx::spec_pwm_pins(self.spec_pwm())[i]).0.0 <= 15,
        ensures
            r@.len() == crate::stm32f1xx::spec_pwm_pins(self.spec_pwm()).len(),
            forall|i: int|
                0 <= i < r@.len() ==> (#[trigger] r@[i])@ == crate::stm32f1xx::spec_gpio_ident(
                    crate::stm32f1xx::spec_pwm_pins(self.spec_pwm())[i].0,
                    crate::stm32f1xx::spec_pwm_pins(self.spec_pwm())[i].1,
                ),
    {
        let pins = self.pwm_pins();
        let mut out: Vec<String> = Vec::new();
        for i in 0..pins.len()
            invariant
                pins@ == crate::stm32f1xx::spec_pwm_pins(self.spec_pwm()),
                forall|k: int| 0 <= k < pins@.len() ==> (#[trigger] pins@[k]).0.0 <= 15,
                out@.len() == i,
                forall|k: int|
                    0 <= k < i ==> (#[trigger] out@[k])@ == crate::stm32f1xx::spec_gpio_ident(
                        pins@[k].0,
                        pins@[k].1,
                    ),
        {
            out.push(crate::stm32f1xx::gpio_ident(pins[i].0, pins[i].1));
        }
        out
    }

    /// The type-shape descriptors of the PWM channel handles, in layout
    /// order.
    pub fn pwm_tys(&self) -> (r: Vec<String>)
        ensures
            r@.len() == crate::generation::spec_pwm_handles(self.spec_pwm()).len(),
            forall|i: int|
                0 <= i < r@.len() ==> (#[trigger] r@[i])@ == crate::generation::spec_pwm_ty(
                    crate::generation::spec_pwm_handles(self.spec_pwm())[i].timer,
                ),
    {
        let pwms = self.pwm();
        let ghost h = |p: PWM|
            p.pins@.map_values(
                |pp: (crate::stm32f1xx::Pin, crate::stm32f1xx::Port)| crate::generation::PwmChannelHandle {
                    timer: p.timer.id,
                    pin: pp.0,
                    port: pp.1,
                },
            );
        let ghost handles = crate::generation::spec_pwm_handles(self.spec_pwm());
        let mut out: Vec<String> = Vec::new();
        for i in 0..pwms.len()
            invariant
                h == (|p: PWM|
                    p.pins@.map_values(
                        |pp: (crate::stm32f1xx::Pin, crate::stm32f1xx::Port)| crate::generation::PwmChannelHandle {
                            timer: p.timer.id,
                            pin: pp.0,
                            port: pp.1,
                        },
                    )),
                handles == crate::generation::spec_pwm_handles(self.spec_pwm()),
                pwms@ == self.spec_pwm(),
                out@.len() == pwms@.take(i as int).flat_map(h).len(),
                forall|k: int|
                    0 <= k < out@.len() ==> (#[trigger] out@[k])@
                        == crate::generation::spec_pwm_ty(
                        pwms@.take(i as int).flat_map(h)[k].timer,
                    ),
        {
            let block = &pwms[i];
            let ghost done = pwms@.take(i as int).flat_map(h);
            for j in 0..block.pins.len()
                invariant
                    h == (|p: PWM|
                        p.pins@.map_values(
                            |pp: (crate::stm32f1xx::Pin, crate::stm32f1xx::Port)| crate::generation::PwmChannelHandle {
                                timer: p.timer.id,
                                pin: pp.0,
                                port: pp.1,
                            },
                        )),
                    0 <= i < pwms@.len(),
                    block == &pwms@[i as int],
                    done == pwms@.take(i as int).flat_map(h),
                    out@.len() == done.len() + j,
                    forall|k: int|
                        0 <= k < done.len() ==> (#[trigger] out@[k])@
                            == crate::generation::spec_pwm_ty(done[k].timer),
                    forall|k: int|
                        done.len() <= k < out@.len() ==> (#[trigger] out@[k])@
                            == crate::generation::spec_pwm_ty(block.timer.id),
            {
                let handle = crate::generation::PwmChannelHandle {
                    timer: block.timer.id,
                    pin: block.pins[j].0,
                    port: block.pins[j].1,
                };
                out.push(handle.ty());
            }
            proof {
                pwms@.lemma_flat_map_take_append(h, i as int);
                let next = pwms@.take(i + 1).flat_map(h);
                assert(next =~= done + h(pwms@[i as int]));
                assert(h(pwms@[i as int]).len() == block.pins@.len());
                assert forall|k: int| 0 <= k < out@.len() implies (#[trigger] out@[k])@
                    == crate::generation::spec_pwm_ty(next[k].timer) by {
                    if k < done.len() {
                        assert(next[k] == done[k]);
                    } else {
                        assert(next[k] == h(pwms@[i as int])[k - done.len()]);
                        assert(next[k].timer == block.timer.id);
                    }
                }
            }
        }
        proof {
            assert(pwms@.take(pwms@.len() as int) =~= pwms@);
        }
        out
    }

    /// The receive pins of the serial blocks, in list order.
    pub fn serial_rx_pins(&self) -> (r: Vec<(crate::stm32f1xx::Pin, crate::stm32f1xx::Port)>)
        ensures
            r@ == self.spec_serials().map_values(|s: Serial| s.rx),
    {
        let serials = self.serials();
        let ghost m = |s: Serial| s.rx;
        let mut out: Vec<(crate::stm32f1xx::Pin, crate::stm32f1xx::Port)> = Vec::new();
        for i in 0..serials.len()
            invariant
                m == (|s: Serial| s.rx),
                out@ == serials@.take(i as int).map_values(m),
        {
            out.push(serials[i].rx);
            proof {
                assert(serials@.take(i + 1).map_values(m) =~= serials@.take(
                    i as int,
                ).map_values(m).push(m(serials@[i as int])));
            }
        }
        proof {
            assert(serials@.take(serials@.len() as int) =~= serials@);
        }
        out
    }

    /// The transmit pins of the serial blocks, in list order.
    pub fn serial_tx_pins(&self) -> (r: Vec<(crate::stm32f1xx::Pin, crate::stm32f1xx::Port)>)
        ensures
            r@ == self.spec_serials().map_values(|s: Serial| s.tx),
    {
        let serials = self.serials();
        let ghost m = |s: Serial| s.tx;
        let mut out: Vec<(crate::stm32f1xx::Pin, crate::stm32f1xx::Port)> = Vec::new();
        for i in 0..serials.len()
            invariant
                m == (|s: Serial| s.tx),
                out@ == serials@.take(i as int).map_values(m),
        {
            out.push(serials[i].tx);
            proof {
                assert(serials@.take(i + 1).map_values(m) =~= serials@.take(
                    i as int,
                ).map_values(m).push(m(serials@[i as int])));
            }
        }
        proof {
            assert(serials@.take(serials@.len() as int) =~= serials@);
        }
        out
    }

    /// The identifiers of the serial handles, in list order.
    pub fn serial_idents(&self) -> (r: Vec<String>)
        ensures
            r@.len() == self.spec_serials().len(),
            forall|i: int|
                0 <= i < r@.len() ==> (#[trigger] r@[i])@ == crate::stm32f1xx::spec_serial_name(
                    self.spec_serials()[i].id,
                ),
    {
        let serials = self.serials();
        let mut out: Vec<String> = Vec::new();
        for i in 0..serials.len()
            invariant
                serials@ == self.spec_serials(),
                out@.len() == i,
                forall|k: int|
                    0 <= k < i ==> (#[trigger] out@[k])@ == crate::stm32f1xx::spec_serial_name(
                        serials@[k].id,
                    ),
        {
            out.push(String::from_str(serials[i].id.name()));
        }
        out
    }

    /// The receive-handle type names of the serial blocks, in list order.
    pub fn serial_rx_tys(&self) -> (r: Vec<String>)
        ensures
            r@.len() == self.spec_serials().len(),
            forall|i: int|
                0 <= i < r@.len() ==> (#[trigger] r@[i])@ == spec_serial_rx_ty(
                    self.spec_serials()[i].id,
                ),
    {
        let serials = self.serials();
        let mut out: Vec<String> = Vec::new();
        for i in 0..serials.len()
            invariant
                serials@ == self.spec_serials(),
                out@.len() == i,
                forall|k: int|
                    0 <= k < i ==> (#[trigger] out@[k])@ == spec_serial_rx_ty(serials@[k].id),
        {
            out.push(
                String::from_str("stm32f1xx_hal::serial::Rx<stm32f1xx_hal::pac::").concat(
                    serials[i].id.pac_name(),
                ).concat(">"),
            );
        }
        out
    }

    /// The transmit-handle type names of the serial blocks, in list order.
    pub fn serial_tx_tys(&self) -> (r: Vec<String>)
        ensures
            r@.len() == self.spec_serials().len(),
            forall|i: int|
                0 <= i < r@.len() ==> (#[trigger] r@[i])@ == spec_serial_tx_ty(
                    self.spec_serials()[i].id,
                ),
    {
        let serials = self.serials();
        let mut out: Vec<String> = Vec::new();
        for i in 0..serials.len()
            invariant
                serials@ == self.spec_serials(),
                out@.len() == i,
                forall|k: int|
                    0 <= k < i ==> (#[trigger] out@[k])@ == spec_serial_tx_ty(serials@[k].id),
        {
            out.push(
                String::from_str("stm32f1xx_hal::serial::Tx<stm32f1xx_hal::pac::").concat(
                    serials[i].id.pac_name(),
                ).concat(">"),
            );
        }
        out
    }

    /// The read-error type name of each serial block, in list order.
    pub fn serial_read_err_tys(&self) -> (r: Vec<String>)
        ensures
            r@.len() == self.spec_serials().len(),
            forall|i: int|
                0 <= i < r@.len() ==> (#[trigger] r@[i])@ == "stm32f1xx_hal::serial::Error"@,
    {
        let serials = self.serials();
        let mut out: Vec<String> = Vec::new();
        for i in 0..serials.len()
            invariant
                out@.len() == i,
                forall|k: int|
                    0 <= k < i ==> (#[trigger] out@[k])@ == "stm32f1xx_hal::serial::Error"@,
        {
            out.push(String::from_str("stm32f1xx_hal::serial::Error"));
        }
        out
    }

    /// The word type name of each serial block, in list order.
    pub fn serial_word_tys(&self) -> (r: Vec<String>)
        ensures
            r@.len() == self.spec_serials().len(),
            forall|i: int| 0 <= i < r@.len() ==> (#[trigger] r@[i])@ == "u8"@,
    {
        let serials = self.serials();
        let mut out: Vec<String> = Vec::new();
        for i in 0..serials.len()
            invariant
                out@.len() == i,
                forall|k: int| 0 <= k < i ==> (#[trigger] out@[k])@ == "u8"@,
        {
            out.push(String::from_str("u8"));
        }
        out
    }

    /// The constructor expression of each serial handle, in list order,
    /// such as `Serial::new(SerialID::Usart1, usart1_tx, usart1_rx)`.
    pub fn serial_constructors(&self) -> (r: Vec<String>)
        ensures
            r@.len() == self.spec_serials().len(),
            forall|i: int|
                0 <= i < r@.len() ==> (#[trigger] r@[i])@ == spec_serial_constructor(
                    self.spec_serials()[i].id,
                ),
    {
        let serials = self.serials();
        let mut out: Vec<String> = Vec::new();
        for i in 0..serials.len()
            invariant
                serials@ == self.spec_serials(),
                out@.len() == i,
                forall|k: int|
                    0 <= k < i ==> (#[trigger] out@[k])@ == spec_serial_constructor(
                        serials@[k].id,
                    ),
        {
            let id = serials[i].id;
            out.push(
                String::from_str("Serial::new(SerialID::").concat(id.ident()).concat(", ").concat(
                    String::from_str(id.name()).concat("_tx").as_str(),
                ).concat(", ").concat(String::from_str(id.name()).concat("_rx").as_str()).concat(
                    ")",
                ),
            );
        }
        out
    }
}

/// The receive-handle type name of a serial interface.
pub open spec fn spec_serial_rx_ty(id: crate::stm32f1xx::SerialID) -> Seq<char> {
    "stm32f1xx_hal::serial::Rx<stm32f1xx_hal::pac::"@ + crate::stm32f1xx::spec_serial_pac_name(id)
        + ">"@
}

/// The transmit-handle type name of a serial interface.
pub open spec fn spec_serial_tx_ty(id: crate::stm32f1xx::SerialID) -> Seq<char> {
    "stm32f1xx_hal::serial::Tx<stm32f1xx_hal::pac::"@ + crate::stm32f1xx::spec_serial_pac_name(id)
        + ">"@
}

/// The constructor expression of a serial handle.
pub open spec fn spec_serial_constructor(id: crate::stm32f1xx::SerialID) -> Seq<char> {
    "Serial::new(SerialID::"@ + crate::stm32f1xx::spec_serial_ident(id) + ", "@
        + crate::stm32f1xx::spec_serial_name(id) + "_tx"@ + ", "@
        + crate::stm32f1xx::spec_serial_name(id) + "_rx"@ + ")"@
}

/// What a correct flat statement list looks like: the preamble followed by
/// the plan operations, or the first gate error.
pub open spec fn spec_statements_match<G: Generator>(
    g: G,
    clock: Option<usize>,
    inputs: Seq<Gpio>,
    outputs: Seq<Gpio>,
    pwms: Seq<PWM>,
    serials: Seq<Serial>,
    r: Result<Vec<Op>, Error>,
) -> bool {
    match crate::validate::spec_check_pins(
        crate::generation::spec_all_pins(inputs, outputs, pwms, serials),
    ) {
        Ok(u) => r matches Ok(v) && v@ == g.spec_imports() + crate::generation::spec_plan_ops(
            g,
            clock,
            inputs,
            outputs,
            pwms,
            serials,
        ),
        Err(e) => r matches Err(e2) && e2 == e,
    }
}

/// The unmask statements a strategy emits: one per interrupt-wired pin, in
/// list order, then one per serial block.
pub open spec fn spec_unmask_ops<G: Generator>(g: G, gpios: Seq<Gpio>, serials: Seq<Serial>) -> Seq<
    Op,
> {
    gpios.flat_map(|x: Gpio| g.spec_unmask(x)) + serials.flat_map(
        |x: Serial| g.spec_serial_unmask(x),
    )
}

/// Collects the unmask statements of a configuration through its strategy.
fn unmask_ops<G: Generator>(g: G, gpios: &Vec<Gpio>, serials: &Vec<Serial>) -> (r: Vec<Op>)
    ensures
        r@ == spec_unmask_ops(g, gpios@, serials@),
{
    let ghost f = |x: Gpio| g.spec_unmask(x);
    let ghost h = |x: Serial| g.spec_serial_unmask(x);
    let mut out: Vec<Op> = Vec::new();
    for i in 0..gpios.len()
        invariant
            f == (|x: Gpio| g.spec_unmask(x)),
            out@ == gpios@.take(i as int).flat_map(f),
    {
        let mut v = g.generate_unmask(&gpios[i]);
        out.append(&mut v);
        proof {
            gpios@.lemma_flat_map_take_append(f, i as int);
            assert(out@ =~= gpios@.take(i + 1).flat_map(f));
        }
    }
    proof {
        assert(gpios@.take(gpios@.len() as int) =~= gpios@);
    }
    for i in 0..serials.len()
        invariant
            f == (|x: Gpio| g.spec_unmask(x)),
            h == (|x: Serial| g.spec_serial_unmask(x)),
            out@ == gpios@.flat_map(f) + serials@.take(i as int).flat_map(h),
    {
        let mut v = g.generate_serial_unmask(&serials[i]);
        out.append(&mut v);
        proof {
            serials@.lemma_flat_map_take_append(h, i as int);
            assert(out@ =~= gpios@.flat_map(f) + serials@.take(i + 1).flat_map(h));
        }
    }
    proof {
        assert(serials@.take(serials@.len() as int) =~= serials@);
    }
    out
}

} // verus!
