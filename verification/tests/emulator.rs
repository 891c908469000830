use ferrisboy_core::context::ApplicationState;
use ferrisboy_core::context::Context;
use ferrisboy_core::emulator::Config;
use ferrisboy_core::emulator::Emulator;
use ferrisboy_core::hardware::CPU;
use ferrisboy_core::hardware::PPU;
use ferrisboy_core::hardware::Timer;

#[test]
fn test_emulator_new_success() {
    let config = Config {};
    let result = Emulator::new(&config);
    assert!(result.is_ok());
    let _emulator = result.expect("failed to create emulator");
}

#[test]
fn test_hardware_constructors() {
    let _cpu = CPU::new();
    let _ppu = PPU::new();
    let _timer = Timer::new();
    let context = Context { state: ApplicationState::Running, ticks: 0 };
    assert_eq!(context.ticks, 0);
    assert_eq!(context.state, ApplicationState::Running);
}
