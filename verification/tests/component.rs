use nes_emulator::Component;

#[test]
fn component_members_work() {
    let mut component: Component<u8> = Component::new(0);

    component.set(10);
    (0..10).for_each(|_| component.increment());
    (0..8).for_each(|_| component.decrement());

    assert_eq!(component.get(), 12);
}

#[test]
fn component_can_underflow() {
    let mut component: Component<u8> = Component::new(u8::MIN);
    component.decrement();

    assert_eq!(component.get(), u8::MAX)
}

#[test]
fn component_can_overflow() {
    let mut component: Component<u8> = Component::new(u8::MAX);
    component.increment();

    assert_eq!(component.get(), u8::MIN)
}
