use anker_powerhouse::command::{
    AcOutputCommand, AcTimerCommand, AnkerCommand, Command, CommandError, CommandType, LedCommand,
    PowerSaveCommand, RechargePowerCommand, ScreenBrightnessCommand, ScreenTimeoutCommand,
    TwelveVoltOutputCommand, TwelveVoltTimerCommand,
};

fn wrapped_sum(bytes: &[u8]) -> u8 {
    let mut sum: u8 = 0;
    for b in bytes {
        sum = sum.wrapping_add(*b);
    }
    sum
}

fn one_of_each() -> Vec<AnkerCommand> {
    vec![
        AnkerCommand::PowerSave(PowerSaveCommand::new(true)),
        AnkerCommand::AcOutput(AcOutputCommand::new(false)),
        AnkerCommand::TwelveVoltOutput(TwelveVoltOutputCommand::new(true)),
        AnkerCommand::ScreenBrightness(ScreenBrightnessCommand::new(3).unwrap()),
        AnkerCommand::Led(LedCommand::new(4).unwrap()),
        AnkerCommand::RechargePower(RechargePowerCommand::new(1440).unwrap()),
        AnkerCommand::ScreenTimeout(ScreenTimeoutCommand::new(65535)),
        AnkerCommand::AcTimer(AcTimerCommand::new(3600)),
        AnkerCommand::TwelveVoltTimer(TwelveVoltTimerCommand::new(0)),
    ]
}

#[test]
fn power_save_on_frame_is_exact() {
    let bytes = PowerSaveCommand::new(true).to_bytes();
    assert_eq!(bytes, vec![0x08, 0xee, 0x00, 0x00, 0x00, 0x02, 0x8a, 0x0b, 0x00, 0x01, 0x8e]);
}

#[test]
fn ac_timer_frame_is_exact() {
    let bytes = AnkerCommand::AcTimer(AcTimerCommand::new(3600)).to_bytes();
    assert_eq!(
        bytes,
        vec![0x08, 0xee, 0x00, 0x00, 0x00, 0x02, 0x02, 0x0e, 0x00, 0x10, 0x0e, 0x00, 0x00, 0x26]
    );
}

#[test]
fn recharge_power_frame_is_little_endian() {
    let bytes = RechargePowerCommand::new(1440).unwrap().to_bytes();
    assert_eq!(
        bytes,
        vec![0x08, 0xee, 0x00, 0x00, 0x00, 0x02, 0x80, 0x0c, 0x00, 0xa0, 0x05, 0x29]
    );
}

#[test]
fn screen_timeout_frame_takes_the_whole_sixteen_bits() {
    let bytes = ScreenTimeoutCommand::new(65535).to_bytes();
    assert_eq!(
        bytes,
        vec![0x08, 0xee, 0x00, 0x00, 0x00, 0x02, 0x82, 0x0c, 0x00, 0xff, 0xff, 0x84]
    );
    let zero = ScreenTimeoutCommand::new(0).to_bytes();
    assert_eq!(zero, vec![0x08, 0xee, 0x00, 0x00, 0x00, 0x02, 0x82, 0x0c, 0x00, 0x00, 0x00, 0x86]);
}

#[test]
fn level_frames_are_exact() {
    let led = LedCommand::new(4).unwrap().to_bytes();
    assert_eq!(led, vec![0x08, 0xee, 0x00, 0x00, 0x00, 0x02, 0x8b, 0x0b, 0x00, 0x04, 0x92]);
    let screen = ScreenBrightnessCommand::new(0).unwrap().to_bytes();
    assert_eq!(screen, vec![0x08, 0xee, 0x00, 0x00, 0x00, 0x02, 0x88, 0x0b, 0x00, 0x00, 0x8b]);
}

#[test]
fn twelve_volt_timer_frame_is_exact() {
    let bytes = TwelveVoltTimerCommand::new(0x1234).to_bytes();
    assert_eq!(
        bytes,
        vec![0x08, 0xee, 0x00, 0x00, 0x00, 0x02, 0x03, 0x0e, 0x00, 0x34, 0x12, 0x00, 0x00, 0x4f]
    );
}

#[test]
fn checksum_is_wrapped_sum_of_all_before() {
    for c in one_of_each() {
        let bytes = c.to_bytes();
        let (last, rest) = bytes.split_last().unwrap();
        assert_eq!(*last, wrapped_sum(rest));
    }
}

#[test]
fn checksum_wraps_around() {
    // The bytes before the checksum add up to more than 255.
    let bytes = ScreenTimeoutCommand::new(65535).to_bytes();
    let total: u32 = bytes[..bytes.len() - 1].iter().map(|b| *b as u32).sum();
    assert!(total > 255);
    assert_eq!(bytes[bytes.len() - 1] as u32, total % 256);
}

#[test]
fn frame_opens_with_header_opcode_and_its_own_length() {
    for c in one_of_each() {
        let bytes = c.to_bytes();
        assert_eq!(&bytes[..6], &[0x08, 0xee, 0x00, 0x00, 0x00, 0x02]);
        assert_eq!(bytes[6], c.command_type().opcode());
        assert_eq!(bytes[7] as usize, bytes.len());
    }
}

#[test]
fn switch_on_and_off_differ_in_parameter_and_checksum_only() {
    let pairs = vec![
        (PowerSaveCommand::new(true).to_bytes(), PowerSaveCommand::new(false).to_bytes()),
        (AcOutputCommand::new(true).to_bytes(), AcOutputCommand::new(false).to_bytes()),
        (
            TwelveVoltOutputCommand::new(true).to_bytes(),
            TwelveVoltOutputCommand::new(false).to_bytes(),
        ),
    ];
    for (on, off) in pairs {
        assert_eq!(on.len(), 11);
        assert_eq!(off.len(), 11);
        assert_eq!(&on[..9], &off[..9]);
        assert_eq!(on[9], 1);
        assert_eq!(off[9], 0);
        assert_eq!(on[10], off[10].wrapping_add(1));
    }
}

#[test]
fn screen_brightness_four_is_refused() {
    let e = ScreenBrightnessCommand::new(4).unwrap_err();
    assert_eq!(e, CommandError::InvalidValue("brightness must be 0-3, got 4".to_string()));
    assert_eq!(e.message(), "Invalid value: brightness must be 0-3, got 4");
    assert_eq!(ScreenBrightnessCommand::new(3).unwrap().brightness(), 3);
    assert_eq!(ScreenBrightnessCommand::new(0).unwrap().brightness(), 0);
    assert!(ScreenBrightnessCommand::new(255).is_err());
}

#[test]
fn led_five_is_refused() {
    let e = LedCommand::new(5).unwrap_err();
    assert_eq!(e, CommandError::InvalidValue("LED level must be 0-4, got 5".to_string()));
    assert_eq!(e.message(), "Invalid value: LED level must be 0-4, got 5");
    assert_eq!(LedCommand::new(4).unwrap().level(), 4);
    assert_eq!(
        LedCommand::new(200).unwrap_err(),
        CommandError::InvalidValue("LED level must be 0-4, got 200".to_string())
    );
}

#[test]
fn recharge_power_bounds() {
    assert_eq!(
        RechargePowerCommand::new(199).unwrap_err(),
        CommandError::InvalidValue("recharge power must be 200-1440, got 199".to_string())
    );
    assert_eq!(
        RechargePowerCommand::new(1441).unwrap_err(),
        CommandError::InvalidValue("recharge power must be 200-1440, got 1441".to_string())
    );
    assert_eq!(RechargePowerCommand::new(200).unwrap().watts(), 200);
    assert_eq!(RechargePowerCommand::new(1440).unwrap().watts(), 1440);
    assert!(RechargePowerCommand::new(0).is_err());
    assert!(RechargePowerCommand::new(65535).is_err());
}

#[test]
fn encoding_twice_gives_the_same_bytes() {
    let first = AnkerCommand::AcTimer(AcTimerCommand::new(3600)).to_bytes();
    let second = AnkerCommand::AcTimer(AcTimerCommand::new(3600)).to_bytes();
    assert_eq!(first, second);
    let command = AnkerCommand::AcTimer(AcTimerCommand::new(3600));
    assert_eq!(command.to_bytes(), command.clone().to_bytes());
    assert_eq!(command.to_bytes(), AcTimerCommand::new(3600).to_bytes());
}

#[test]
fn command_types_have_names_and_opcodes() {
    let table: Vec<(CommandType, u8, &str)> = vec![
        (CommandType::AcTimer, 0x02, "ac_timer"),
        (CommandType::TwelveVoltTimer, 0x03, "twelve_volt_timer"),
        (CommandType::RechargePower, 0x80, "recharge_power"),
        (CommandType::ScreenTimeout, 0x82, "screen_timeout"),
        (CommandType::AcOutput, 0x86, "ac_output"),
        (CommandType::TwelveVoltOutput, 0x87, "twelve_volt_output"),
        (CommandType::ScreenBrightness, 0x88, "screen_brightness"),
        (CommandType::PowerSave, 0x8a, "power_save"),
        (CommandType::Led, 0x8b, "led"),
    ];
    for (t, opcode, name) in table {
        assert_eq!(t.opcode(), opcode);
        assert_eq!(t.as_str(), name);
        assert_eq!(CommandType::try_from(opcode), Ok(t));
    }
}

#[test]
fn unknown_opcode_is_refused() {
    let e = CommandType::try_from(0x01u8).unwrap_err();
    assert_eq!(e, CommandError::UnknownCommandType(0x01));
    assert_eq!(e.message(), "Unknown command type: 0x01");
    assert_eq!(
        CommandType::try_from(0xffu8).unwrap_err().message(),
        "Unknown command type: 0xff"
    );
    let mut known = 0;
    for byte in 0..=255u8 {
        if CommandType::try_from(byte).is_ok() {
            known += 1;
        }
    }
    assert_eq!(known, 9);
}

#[test]
fn every_command_reports_its_type() {
    let types: Vec<CommandType> = one_of_each().iter().map(|c| c.command_type()).collect();
    assert_eq!(
        types,
        vec![
            CommandType::PowerSave,
            CommandType::AcOutput,
            CommandType::TwelveVoltOutput,
            CommandType::ScreenBrightness,
            CommandType::Led,
            CommandType::RechargePower,
            CommandType::ScreenTimeout,
            CommandType::AcTimer,
            CommandType::TwelveVoltTimer,
        ]
    );
}

#[test]
fn trait_methods_give_the_parts_of_the_frame() {
    let c = AcTimerCommand::new(3600);
    assert_eq!(c.command_type(), CommandType::AcTimer);
    assert_eq!(c.length(), 14);
    assert_eq!(c.parameters(), vec![0x00, 0x10, 0x0e, 0x00, 0x00]);
    let p = PowerSaveCommand::new(false);
    assert_eq!(p.length(), 11);
    assert_eq!(p.parameters(), vec![0x00, 0x00]);
    let r = RechargePowerCommand::new(200).unwrap();
    assert_eq!(r.length(), 12);
    assert_eq!(r.parameters(), vec![0x00, 0xc8, 0x00]);
}
