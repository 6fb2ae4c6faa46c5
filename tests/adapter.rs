use uart_spi::{NoOpPin, UARTSPI};

#[derive(Debug, PartialEq, Eq)]
struct FakeUart {
    id: u32,
    log: Vec<u8>,
}

#[test]
fn free_returns_the_wrapped_transport() {
    let uart = FakeUart { id: 7, log: vec![1, 2, 3] };
    let spi = UARTSPI::new(uart);
    let back = spi.free();
    assert_eq!(back, FakeUart { id: 7, log: vec![1, 2, 3] });
}

#[test]
fn transport_mut_reaches_the_owned_transport() {
    let mut spi = UARTSPI::new(FakeUart { id: 1, log: vec![] });
    spi.transport_mut().log.push(0x52);
    let back = spi.free();
    assert_eq!(back.log, vec![0x52]);
    assert_eq!(back.id, 1);
}

#[test]
fn no_op_pin_always_succeeds() {
    let mut pin = NoOpPin;
    for _ in 0..3 {
        assert_eq!(pin.set_high(), Ok(()));
        assert_eq!(pin.set_low(), Ok(()));
        assert_eq!(pin.set_low(), Ok(()));
    }
}
