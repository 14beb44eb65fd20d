use lascaoito::cartridge::Cartridge;
use lascaoito::config::{Config, ConfigError};
use lascaoito::error::VmError;
use lascaoito::machine::VirtualMachine;

#[test]
fn config_defaults() {
    let c = Config::new("game.ch8".to_string(), None, None).unwrap();
    assert_eq!(c.scale, 5);
    assert_eq!(c.delay, 1);
    assert!(!c.quirks);
    assert_eq!(c.filename, "game.ch8");
}

#[test]
fn config_reads_numbers() {
    let c = Config::new("a".to_string(), Some("12"), Some("+3")).unwrap();
    assert_eq!(c.scale, 12);
    assert_eq!(c.delay, 3);
}

#[test]
fn config_rejects_bad_delay_first() {
    assert_eq!(
        Config::new("a".to_string(), Some("x"), Some("-1")).err(),
        Some(ConfigError::InvalidDelay)
    );
    assert_eq!(
        Config::new("a".to_string(), None, Some(" 4")).err(),
        Some(ConfigError::InvalidDelay)
    );
}

#[test]
fn config_rejects_bad_scale() {
    assert_eq!(
        Config::new("a".to_string(), Some("256"), None).err(),
        Some(ConfigError::InvalidScale)
    );
    assert_eq!(
        Config::new("a".to_string(), Some(""), Some("0")).err(),
        Some(ConfigError::InvalidScale)
    );
}

#[test]
fn cartridge_size_limit() {
    assert!(matches!(Cartridge::from_bytes(vec![0; 3585]), Err(VmError::ProgramTooLarge)));
    let c = Cartridge::from_bytes(vec![0x12, 0x00]).ok().unwrap();
    assert_eq!(c.size(), 2);
    assert_eq!(c.data(), &[0x12, 0x00]);
}

#[test]
fn load_rom_copies_to_512() {
    let mut vm = VirtualMachine::new();
    let c = Cartridge::from_bytes(vec![0xAB, 0xCD]).ok().unwrap();
    vm.load_rom(c);
    assert_eq!(vm.read_byte(512), Ok(0xAB));
    assert_eq!(vm.read_byte(513), Ok(0xCD));
    assert_eq!(vm.read_byte(514), Ok(0));
}

#[test]
fn config_number_edge_cases() {
    assert_eq!(Config::new("a".to_string(), Some("0000255"), Some("007")).map(|c| (c.scale, c.delay)), Ok((255, 7)));
    assert_eq!(
        Config::new("a".to_string(), None, Some("++5")).err(),
        Some(ConfigError::InvalidDelay)
    );
    assert_eq!(
        Config::new("a".to_string(), Some("+"), None).err(),
        Some(ConfigError::InvalidScale)
    );
}
