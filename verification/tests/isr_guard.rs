use rp_sync::isr_guard::rp2040;
use rp_sync::isr_guard::rp235x;
use rp_sync::isr_guard::IsrToken;

fn line_of<T: IsrToken>(_token: &T) -> T::Interrupt {
    T::IRQ
}

#[test]
fn rp2040_tokens_name_their_interrupt() {
    assert_eq!(rp2040::TIMER_IRQ_0::IRQ, rp2040::Interrupt::TIMER_IRQ_0);
    assert_eq!(rp2040::PWM_IRQ_WRAP::IRQ, rp2040::Interrupt::PWM_IRQ_WRAP);
    assert_eq!(rp2040::SIO_IRQ_PROC1::IRQ, rp2040::Interrupt::SIO_IRQ_PROC1);
    assert_eq!(rp2040::RTC_IRQ::IRQ, rp2040::Interrupt::RTC_IRQ);
    assert_eq!(rp2040::SW5_IRQ::IRQ, rp2040::Interrupt::SW5_IRQ);
    assert_ne!(rp2040::DMA_IRQ_0::IRQ, rp2040::DMA_IRQ_1::IRQ);
}

#[test]
fn rp235x_tokens_name_their_interrupt() {
    assert_eq!(rp235x::TIMER0_IRQ_0::IRQ, rp235x::Interrupt::TIMER0_IRQ_0);
    assert_eq!(rp235x::TIMER1_IRQ_3::IRQ, rp235x::Interrupt::TIMER1_IRQ_3);
    assert_eq!(rp235x::PIO2_IRQ_1::IRQ, rp235x::Interrupt::PIO2_IRQ_1);
    assert_eq!(rp235x::SIO_IRQ_MTIMECMP::IRQ, rp235x::Interrupt::SIO_IRQ_MTIMECMP);
    assert_eq!(rp235x::POWMAN_IRQ_TIMER::IRQ, rp235x::Interrupt::POWMAN_IRQ_TIMER);
    assert_ne!(rp235x::DMA_IRQ_2::IRQ, rp235x::DMA_IRQ_3::IRQ);
}

#[test]
fn steal_makes_the_token_of_the_named_handler() {
    let token = rp2040::USBCTRL_IRQ::steal();
    assert_eq!(line_of(&token), rp2040::Interrupt::USBCTRL_IRQ);
    let token = rp235x::USBCTRL_IRQ::steal();
    assert_eq!(line_of(&token), rp235x::Interrupt::USBCTRL_IRQ);
}

#[test]
fn steal_can_be_repeated() {
    let first = rp2040::UART0_IRQ::steal();
    let second = rp2040::UART0_IRQ::steal();
    assert_eq!(line_of(&first), line_of(&second));
}
