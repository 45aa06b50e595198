//! Interrupt tokens of the RP2040: one type per interrupt line.

#![allow(non_camel_case_types)]

use crate::isr_guard::IsrToken;
use crate::sealed_trait::Sealed;
use core::marker::PhantomData;
use std::rc::Rc;
use vstd::prelude::*;

verus! {

/// The interrupt lines of the RP2040 that a handler can be bound to.
#[derive(Clone, Copy, Debug, PartialEq, Eq, Structural)]
pub enum Interrupt {
    TIMER_IRQ_0,
    TIMER_IRQ_1,
    TIMER_IRQ_2,
    TIMER_IRQ_3,
    PWM_IRQ_WRAP,
    USBCTRL_IRQ,
    XIP_IRQ,
    PIO0_IRQ_0,
    PIO0_IRQ_1,
    PIO1_IRQ_0,
    PIO1_IRQ_1,
    DMA_IRQ_0,
    DMA_IRQ_1,
    IO_IRQ_BANK0,
    IO_IRQ_QSPI,
    SIO_IRQ_PROC0,
    SIO_IRQ_PROC1,
    CLOCKS_IRQ,
    SPI0_IRQ,
    SPI1_IRQ,
    UART0_IRQ,
    UART1_IRQ,
    ADC_IRQ_FIFO,
    I2C0_IRQ,
    I2C1_IRQ,
    RTC_IRQ,
    SW0_IRQ,
    SW1_IRQ,
    SW2_IRQ,
    SW3_IRQ,
    SW4_IRQ,
    SW5_IRQ,
}

/// Ownership token of the handler that is bound to line `LINE` of the
/// RP2040's interrupt table: a zero-sized value that stays in the context
/// that made it.
///
/// Only the lines that are named below have a token: for any other `LINE`
/// the type cannot be built.
pub struct Isr<const LINE: u16> {
    _marker: PhantomData<Rc<()>>,
}

impl<const LINE: u16> Isr<LINE> where Isr<LINE>: IsrToken {
    /// Take ownership of this token.
    ///
    /// Nothing tells whether the caller is the handler of the line: the
    /// token is made unconditionally, and only that handler should ask for
    /// it. The name of the interrupt is part of the name of the type, so a
    /// misuse shows where it is made.
    pub fn steal() -> Self {
        Isr { _marker: PhantomData }
    }
}

/// Ownership token of the `TIMER_IRQ_0` handler.
pub type TIMER_IRQ_0 = Isr<0>;

impl Sealed for Isr<0> {}

impl IsrToken for Isr<0> {
    type Interrupt = Interrupt;

    const IRQ: Interrupt = Interrupt::TIMER_IRQ_0;
}

/// Ownership token of the `TIMER_IRQ_1` handler.
pub type TIMER_IRQ_1 = Isr<1>;

impl Sealed for Isr<1> {}

impl IsrToken for Isr<1> {
    type Interrupt = Interrupt;

    const IRQ: Interrupt = Interrupt::TIMER_IRQ_1;
}

/// Ownership token of the `TIMER_IRQ_2` handler.
pub type TIMER_IRQ_2 = Isr<2>;

impl Sealed for Isr<2> {}

impl IsrToken for Isr<2> {
    type Interrupt = Interrupt;

    const IRQ: Interrupt = Interrupt::TIMER_IRQ_2;
}

/// Ownership token of the `TIMER_IRQ_3` handler.
pub type TIMER_IRQ_3 = Isr<3>;

impl Sealed for Isr<3> {}

impl IsrToken for Isr<3> {
    type Interrupt = Interrupt;

    const IRQ: Interrupt = Interrupt::TIMER_IRQ_3;
}

/// Ownership token of the `PWM_IRQ_WRAP` handler.
pub type PWM_IRQ_WRAP = Isr<4>;

impl Sealed for Isr<4> {}

impl IsrToken for Isr<4> {
    type Interrupt = Interrupt;

    const IRQ: Interrupt = Interrupt::PWM_IRQ_WRAP;
}

/// Ownership token of the `USBCTRL_IRQ` handler.
pub type USBCTRL_IRQ = Isr<5>;

impl Sealed for Isr<5> {}

impl IsrToken for Isr<5> {
    type Interrupt = Interrupt;

    const IRQ: Interrupt = Interrupt::USBCTRL_IRQ;
}

/// Ownership token of the `XIP_IRQ` handler.
pub type XIP_IRQ = Isr<6>;

impl Sealed for Isr<6> {}

impl IsrToken for Isr<6> {
    type Interrupt = Interrupt;

    const IRQ: Interrupt = Interrupt::XIP_IRQ;
}

/// Ownership token of the `PIO0_IRQ_0` handler.
pub type PIO0_IRQ_0 = Isr<7>;

impl Sealed for Isr<7> {}

impl IsrToken for Isr<7> {
    type Interrupt = Interrupt;

    const IRQ: Interrupt = Interrupt::PIO0_IRQ_0;
}

/// Ownership token of the `PIO0_IRQ_1` handler.
pub type PIO0_IRQ_1 = Isr<8>;

impl Sealed for Isr<8> {}

impl IsrToken for Isr<8> {
    type Interrupt = Interrupt;

    const IRQ: Interrupt = Interrupt::PIO0_IRQ_1;
}

/// Ownership token of the `PIO1_IRQ_0` handler.
pub type PIO1_IRQ_0 = Isr<9>;

impl Sealed for Isr<9> {}

impl IsrToken for Isr<9> {
    type Interrupt = Interrupt;

    const IRQ: Interrupt = Interrupt::PIO1_IRQ_0;
}

/// Ownership token of the `PIO1_IRQ_1` handler.
pub type PIO1_IRQ_1 = Isr<10>;

impl Sealed for Isr<10> {}

impl IsrToken for Isr<10> {
    type Interrupt = Interrupt;

    const IRQ: Interrupt = Interrupt::PIO1_IRQ_1;
}

/// Ownership token of the `DMA_IRQ_0` handler.
pub type DMA_IRQ_0 = Isr<11>;

impl Sealed for Isr<11> {}

impl IsrToken for Isr<11> {
    type Interrupt = Interrupt;

    const IRQ: Interrupt = Interrupt::DMA_IRQ_0;
}

/// Ownership token of the `DMA_IRQ_1` handler.
pub type DMA_IRQ_1 = Isr<12>;

impl Sealed for Isr<12> {}

impl IsrToken for Isr<12> {
    type Interrupt = Interrupt;

    const IRQ: Interrupt = Interrupt::DMA_IRQ_1;
}

/// Ownership token of the `IO_IRQ_BANK0` handler.
pub type IO_IRQ_BANK0 = Isr<13>;

impl Sealed for Isr<13> {}

impl IsrToken for Isr<13> {
    type Interrupt = Interrupt;

    const IRQ: Interrupt = Interrupt::IO_IRQ_BANK0;
}

/// Ownership token of the `IO_IRQ_QSPI` handler.
pub type IO_IRQ_QSPI = Isr<14>;

impl Sealed for Isr<14> {}

impl IsrToken for Isr<14> {
    type Interrupt = Interrupt;

    const IRQ: Interrupt = Interrupt::IO_IRQ_QSPI;
}

/// Ownership token of the `SIO_IRQ_PROC0` handler.
pub type SIO_IRQ_PROC0 = Isr<15>;

impl Sealed for Isr<15> {}

impl IsrToken for Isr<15> {
    type Interrupt = Interrupt;

    const IRQ: Interrupt = Interrupt::SIO_IRQ_PROC0;
}

/// Ownership token of the `SIO_IRQ_PROC1` handler.
pub type SIO_IRQ_PROC1 = Isr<16>;

impl Sealed for Isr<16> {}

impl IsrToken for Isr<16> {
    type Interrupt = Interrupt;

    const IRQ: Interrupt = Interrupt::SIO_IRQ_PROC1;
}

/// Ownership token of the `CLOCKS_IRQ` handler.
pub type CLOCKS_IRQ = Isr<17>;

impl Sealed for Isr<17> {}

impl IsrToken for Isr<17> {
    type Interrupt = Interrupt;

    const IRQ: Interrupt = Interrupt::CLOCKS_IRQ;
}

/// Ownership token of the `SPI0_IRQ` handler.
pub type SPI0_IRQ = Isr<18>;

impl Sealed for Isr<18> {}

impl IsrToken for Isr<18> {
    type Interrupt = Interrupt;

    const IRQ: Interrupt = Interrupt::SPI0_IRQ;
}

/// Ownership token of the `SPI1_IRQ` handler.
pub type SPI1_IRQ = Isr<19>;

impl Sealed for Isr<19> {}

impl IsrToken for Isr<19> {
    type Interrupt = Interrupt;

    const IRQ: Interrupt = Interrupt::SPI1_IRQ;
}

/// Ownership token of the `UART0_IRQ` handler.
pub type UART0_IRQ = Isr<20>;

impl Sealed for Isr<20> {}

impl IsrToken for Isr<20> {
    type Interrupt = Interrupt;

    const IRQ: Interrupt = Interrupt::UART0_IRQ;
}

/// Ownership token of the `UART1_IRQ` handler.
pub type UART1_IRQ = Isr<21>;

impl Sealed for Isr<21> {}

impl IsrToken for Isr<21> {
    type Interrupt = Interrupt;

    const IRQ: Interrupt = Interrupt::UART1_IRQ;
}

/// Ownership token of the `ADC_IRQ_FIFO` handler.
pub type ADC_IRQ_FIFO = Isr<22>;

impl Sealed for Isr<22> {}

impl IsrToken for Isr<22> {
    type Interrupt = Interrupt;

    const IRQ: Interrupt = Interrupt::ADC_IRQ_FIFO;
}

/// Ownership token of the `I2C0_IRQ` handler.
pub type I2C0_IRQ = Isr<23>;

impl Sealed for Isr<23> {}

impl IsrToken for Isr<23> {
    type Interrupt = Interrupt;

    const IRQ: Interrupt = Interrupt::I2C0_IRQ;
}

/// Ownership token of the `I2C1_IRQ` handler.
pub type I2C1_IRQ = Isr<24>;

impl Sealed for Isr<24> {}

impl IsrToken for Isr<24> {
    type Interrupt = Interrupt;

    const IRQ: Interrupt = Interrupt::I2C1_IRQ;
}

/// Ownership token of the `RTC_IRQ` handler.
pub type RTC_IRQ = Isr<25>;

impl Sealed for Isr<25> {}

impl IsrToken for Isr<25> {
    type Interrupt = Interrupt;

    const IRQ: Interrupt = Interrupt::RTC_IRQ;
}

/// Ownership token of the `SW0_IRQ` handler.
pub type SW0_IRQ = Isr<26>;

impl Sealed for Isr<26> {}

impl IsrToken for Isr<26> {
    type Interrupt = Interrupt;

    const IRQ: Interrupt = Interrupt::SW0_IRQ;
}

/// Ownership token of the `SW1_IRQ` handler.
pub type SW1_IRQ = Isr<27>;

impl Sealed for Isr<27> {}

impl IsrToken for Isr<27> {
    type Interrupt = Interrupt;

    const IRQ: Interrupt = Interrupt::SW1_IRQ;
}

/// Ownership token of the `SW2_IRQ` handler.
pub type SW2_IRQ = Isr<28>;

impl Sealed for Isr<28> {}

impl IsrToken for Isr<28> {
    type Interrupt = Interrupt;

    const IRQ: Interrupt = Interrupt::SW2_IRQ;
}

/// Ownership token of the `SW3_IRQ` handler.
pub type SW3_IRQ = Isr<29>;

impl Sealed for Isr<29> {}

impl IsrToken for Isr<29> {
    type Interrupt = Interrupt;

    const IRQ: Interrupt = Interrupt::SW3_IRQ;
}

/// Ownership token of the `SW4_IRQ` handler.
pub type SW4_IRQ = Isr<30>;

impl Sealed for Isr<30> {}

impl IsrToken for Isr<30> {
    type Interrupt = Interrupt;

    const IRQ: Interrupt = Interrupt::SW4_IRQ;
}

/// Ownership token of the `SW5_IRQ` handler.
pub type SW5_IRQ = Isr<31>;

impl Sealed for Isr<31> {}

impl IsrToken for Isr<31> {
    type Interrupt = Interrupt;

    const IRQ: Interrupt = Interrupt::SW5_IRQ;
}

} // verus!
