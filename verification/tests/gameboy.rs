use gameboy::cartridge::Cartridge;
use gameboy::cpu::Cpu;
use gameboy::cpu::Interrupt;
use gameboy::error::Error;
use gameboy::error::HeaderField;
use gameboy::joypad::Button;
use gameboy::joypad::JoypadEvent;
use gameboy::memory::MemoryRead;
use gameboy::memory::MemoryWrite;
use gameboy::Gameboy;

fn cartridge(cartridge_type: u8, rom_size: u8, ram_size: u8, banks: usize) -> Cartridge {
    let mut image = vec![0u8; banks * 16384];
    for i in 0..image.len() {
        image[i] = (i / 16384) as u8;
    }
    image[0x147] = cartridge_type;
    image[0x148] = rom_size;
    image[0x149] = ram_size;
    Cartridge::from_image(image, None)
}

fn gameboy() -> Gameboy {
    Gameboy::init(cartridge(0x03, 0x01, 0x02, 4), false).ok().unwrap()
}

#[test]
fn init_builds_the_machine_of_the_cartridge() {
    let gameboy = Gameboy::init(cartridge(0x1B, 0x02, 0x03, 8), true).ok().unwrap();
    assert!(gameboy.cpu.trace);
    assert!(!gameboy.cpu.stopped);
    assert!(!gameboy.speed());
    assert_eq!(gameboy.cpu.memory.controller.rom.num_banks, 8);
    assert_eq!(gameboy.cpu.memory.controller.ram.as_ref().unwrap().num_banks, 4);
    assert_eq!(gameboy.cpu.memory.cycle, 0);
    assert_eq!(gameboy.cpu.memory.read(0x4000u16), 1);
}

#[test]
fn init_refuses_a_bad_cartridge() {
    assert_eq!(
        Gameboy::init(cartridge(0x03, 0x0A, 0x02, 4), false).err(),
        Some(Error::InvalidValue { field: HeaderField::RomSize, value: 0x0A })
    );
    assert_eq!(
        Cpu::from_cartridge(cartridge(0x03, 0x02, 0x02, 4), false).err(),
        Some(Error::Io { expected: 131072, found: 65536 })
    );
}

#[test]
fn cycle_times() {
    assert_eq!(Cpu::cycle_time(false), 238);
    assert_eq!(Cpu::cycle_time(true), 119);
    assert_eq!(Cpu::CYCLE_TIME, 238);
    assert_eq!(Gameboy::FRAME_DURATION, 16_750_418);
    assert_eq!(Gameboy::cycles_per_frame(false), 70379);
    assert_eq!(Gameboy::cycles_per_frame(true), 140759);
}

#[test]
fn step_raises_the_interrupts_of_the_bus() {
    let mut gameboy = gameboy();
    gameboy.cpu.memory.write(0xFF41u16, 0x10u8);
    gameboy.cpu.memory.write(0xFF07u16, 0x05u8);
    gameboy.cpu.memory.write(0xFF05u16, 0xFFu8);
    assert_eq!(gameboy.step(100), 100);
    assert_eq!(gameboy.cpu.memory.read(0xFF0Fu16), Interrupt::Timer.to_mask());
    gameboy.cpu.memory.write(0xFF0Fu16, 0x00u8);
    gameboy.cpu.memory.write(0xFF07u16, 0x00u8);
    assert_eq!(gameboy.step(144 * 456 - 100), 144 * 456 - 100);
    assert_eq!(gameboy.cpu.memory.read(0xFF0Fu16), 0x03);
    assert_eq!(gameboy.cpu.memory.read(0xFF44u16), 144);
    assert_eq!(gameboy.cpu.memory.cycle, 144 * 456);
    gameboy.cpu.memory.write(0xFF02u16, 0x80u8);
    gameboy.step(4);
    assert_eq!(gameboy.cpu.memory.read(0xFF0Fu16), 0x0B);
}

#[test]
fn step_after_a_stop_resets_the_divider() {
    let mut gameboy = gameboy();
    gameboy.step(256 * 5);
    assert_eq!(gameboy.cpu.memory.read(0xFF04u16), 5);
    gameboy.cpu.stopped = true;
    gameboy.step(256);
    assert_eq!(gameboy.cpu.memory.read(0xFF04u16), 0);
    assert!(!gameboy.cpu.stopped);
    gameboy.step(256);
    assert_eq!(gameboy.cpu.memory.read(0xFF04u16), 7);
}

#[test]
fn step_at_double_speed_takes_two_cycles_for_a_dot() {
    let mut gameboy = gameboy();
    gameboy.cpu.memory.write(0xFF4Du16, 0x01u8);
    gameboy.step(4);
    assert!(!gameboy.speed());
    // The switch waits for the stop.
    gameboy.cpu.stopped = true;
    gameboy.step(0);
    assert!(gameboy.speed());
    assert!(gameboy.cpu.speed());
    assert!(!gameboy.cpu.stopped);
    assert_eq!(gameboy.cpu.memory.read(0xFF4Du16), 0x80);
    gameboy.step(2 * 456 * 3 - 4);
    assert_eq!(gameboy.cpu.memory.read(0xFF44u16), 3);
    // The timer counts cycles as before.
    assert_eq!(gameboy.cpu.memory.read(0xFF04u16), ((2 * 456 * 3) / 256) as u8);
    // A stop with no switch armed leaves the speed.
    gameboy.cpu.stopped = true;
    gameboy.step(0);
    assert!(gameboy.speed());
}

#[test]
fn joypad_events_raise_the_joypad_interrupt() {
    let mut gameboy = gameboy();
    gameboy.update_joypad(None);
    assert_eq!(gameboy.cpu.memory.read(0xFF0Fu16), 0);
    gameboy.update_joypad(Some(&[JoypadEvent::Up(Button::A)]));
    assert_eq!(gameboy.cpu.memory.read(0xFF0Fu16), 0);
    gameboy.update_joypad(Some(&[
        JoypadEvent::Down(Button::A),
        JoypadEvent::Down(Button::Left),
        JoypadEvent::Up(Button::A),
    ]));
    assert_eq!(gameboy.cpu.memory.read(0xFF0Fu16), 0x10);
    assert_eq!(gameboy.cpu.memory.io.joypad.pressed, 0x02);
    gameboy.cpu.memory.write(0xFF0Fu16, 0x00u8);
    gameboy.update_joypad(Some(&[JoypadEvent::Down(Button::Left)]));
    assert_eq!(gameboy.cpu.memory.read(0xFF0Fu16), 0);
    gameboy.update_joypad(Some(&[]));
    assert_eq!(gameboy.cpu.memory.io.joypad.pressed, 0x02);
}

#[test]
fn insert_replaces_the_machine() {
    let mut gameboy = Gameboy::init(cartridge(0x03, 0x01, 0x02, 4), true).ok().unwrap();
    gameboy.cpu.memory.write(0xC000u16, 0x12u8);
    gameboy.step(1000);
    assert_eq!(gameboy.insert(cartridge(0x19, 0x02, 0x00, 8)), Ok(()));
    assert_eq!(gameboy.cpu.memory.controller.rom.num_banks, 8);
    assert!(gameboy.cpu.memory.controller.ram.is_none());
    assert_eq!(gameboy.cpu.memory.read(0xC000u16), 0);
    assert_eq!(gameboy.cpu.memory.cycle, 0);
    assert!(!gameboy.cpu.trace);
}

#[test]
fn insert_of_a_bad_cartridge_changes_nothing() {
    let mut gameboy = gameboy();
    gameboy.cpu.memory.write(0xC000u16, 0x12u8);
    gameboy.step(1000);
    assert_eq!(
        gameboy.insert(cartridge(0x03, 0x01, 0x09, 4)),
        Err(Error::InvalidValue { field: HeaderField::RamSize, value: 0x09 })
    );
    assert_eq!(gameboy.cpu.memory.read(0xC000u16), 0x12);
    assert_eq!(gameboy.cpu.memory.cycle, 1000);
    assert_eq!(gameboy.cpu.memory.controller.rom.num_banks, 4);
}

#[test]
fn reset_goes_back_to_power_on() {
    let mut gameboy = Gameboy::init(cartridge(0x03, 0x01, 0x02, 4), true).ok().unwrap();
    gameboy.cpu.memory.write(0x0000u16, 0x0Au8);
    gameboy.cpu.memory.write(0x2000u16, 0x03u8);
    gameboy.cpu.memory.write(0xA000u16, 0x34u8);
    gameboy.cpu.memory.write(0xC000u16, 0x12u8);
    gameboy.cpu.stopped = true;
    gameboy.cpu().memory.cycle = 77;
    gameboy.reset();
    assert!(!gameboy.cpu.stopped);
    assert!(gameboy.cpu.trace);
    assert_eq!(gameboy.cpu.memory.cycle, 0);
    assert_eq!(gameboy.cpu.memory.read(0xC000u16), 0);
    assert_eq!(gameboy.cpu.memory.read(0xA000u16), 0);
    assert_eq!(gameboy.cpu.memory.read(0x4000u16), 3);
}

#[test]
fn serial_output_collects_what_was_sent() {
    let mut gameboy = gameboy();
    assert_eq!(gameboy.serial_output(), "");
    for byte in [b'H', b'i', b'!', 0xE9] {
        gameboy.cpu.memory.write(0xFF01u16, byte);
        gameboy.cpu.memory.write(0xFF02u16, 0x81u8);
    }
    assert_eq!(gameboy.serial_output(), "Hi!\u{e9}");
    assert_eq!(gameboy.serial_output().chars().count(), 4);
}

#[test]
fn well_formed_machine() {
    let mut gameboy = gameboy();
    assert!(gameboy.is_wf());
    assert!(gameboy.cpu.is_wf());
    gameboy.step(70224);
    gameboy.update_joypad(Some(&[JoypadEvent::Down(Button::B)]));
    assert!(gameboy.is_wf());
    gameboy.cpu.memory.controller.rom.data.clear();
    assert!(!gameboy.is_wf());
}
