use glwindow::arb_formats::{enumerate_arb_pixel_formats, ArbEnumeration};
use glwindow::native_formats::{
    enumerate_native_pixel_formats, native_pixel_format, NativeEnumeration,
};
use glwindow::pixel_format::{set_pixel_format, FormatSetting};
use glwindow::protocol::{Action, Reply};
use glwindow::types::{Failure, PixelFormat, PixelFormatDescriptor, WindowWrapper};

fn descriptor(flags: u32, pixel_type: u8) -> PixelFormatDescriptor {
    PixelFormatDescriptor {
        size: 40,
        version: 1,
        flags,
        pixel_type,
        color_bits: 32,
        red_bits: 8,
        red_shift: 16,
        green_bits: 7,
        green_shift: 8,
        blue_bits: 6,
        blue_shift: 0,
        alpha_bits: 5,
        alpha_shift: 24,
        accum_bits: 64,
        accum_red_bits: 16,
        accum_green_bits: 16,
        accum_blue_bits: 16,
        accum_alpha_bits: 16,
        depth_bits: 24,
        stencil_bits: 3,
        aux_buffers: 4,
        layer_type: 0,
        reserved: 0,
        layer_mask: 0,
        visible_mask: 0,
        damage_mask: 0,
    }
}

fn format(accelerated: bool, stereoscopy: bool, double_buffer: bool) -> PixelFormat {
    PixelFormat {
        hardware_accelerated: accelerated,
        red_bits: 8,
        green_bits: 7,
        blue_bits: 6,
        alpha_bits: 5,
        depth_bits: 24,
        stencil_bits: 3,
        stereoscopy,
        double_buffer,
        multisampling: None,
        srgb: false,
    }
}

#[test]
fn native_format_is_read_off_its_description() {
    assert_eq!(native_pixel_format(&descriptor(0x24, 0)), Some(format(true, false, false)));
    assert_eq!(native_pixel_format(&descriptor(0x67, 0)), Some(format(false, true, true)));
    assert_eq!(native_pixel_format(&descriptor(0x26, 0)), Some(format(true, true, false)));
}

#[test]
fn native_format_of_no_use() {
    assert_eq!(native_pixel_format(&descriptor(0x20, 0)), None);
    assert_eq!(native_pixel_format(&descriptor(0x04, 0)), None);
    assert_eq!(native_pixel_format(&descriptor(0x24, 1)), None);
}

fn described(value: i32, flags: u32, pixel_type: u8) -> Reply {
    Reply::Described {
        value,
        descriptor: descriptor(flags, pixel_type),
        os_error: String::from("no"),
    }
}

#[test]
fn native_walk_asks_in_order_and_keeps_what_is_usable() {
    let mut found = Vec::new();
    let walk = enumerate_native_pixel_formats(&WindowWrapper(7, 9));
    assert_eq!(walk.action(), Action::CountPixelFormats { hdc: 9, index: 1 });
    let mut walk = walk.step(&Reply::Code { value: 4, os_error: String::new() }, &mut found);
    let replies =
        [described(1, 0x24, 0), described(0, 0x24, 0), described(1, 0x20, 0), described(4, 0x25, 0)];
    for (index, reply) in replies.iter().enumerate() {
        assert_eq!(walk.action(), Action::DescribeCandidate { hdc: 9, index: index as i32 });
        walk = walk.step(reply, &mut found);
    }
    assert_eq!(walk, NativeEnumeration::Finished);
    assert_eq!(found, vec![(format(true, false, false), 0), (format(true, false, true), 3)]);
}

#[test]
fn native_walk_without_formats() {
    for num in [0, -1, i32::MIN] {
        let mut found = Vec::new();
        let walk = enumerate_native_pixel_formats(&WindowWrapper(7, 9))
            .step(&Reply::Code { value: num, os_error: String::new() }, &mut found);
        assert_eq!(walk, NativeEnumeration::Finished);
        assert!(found.is_empty());
    }
}

/// The attributes of three formats; the one in the middle is not accelerated.
fn driver(index: i32, attribute: i32) -> i32 {
    match attribute {
        0x2000 => 3,
        0x2001 => 1,
        0x2010 => 1,
        0x2003 => {
            if index == 1 {
                0x2025
            } else {
                0x2027
            }
        }
        0x2013 => 0x202B,
        0x2015 => 8,
        0x2017 => 256 + 7,
        0x2019 => 6,
        0x201B => 5,
        0x2022 => 24,
        0x2023 => 3,
        0x2012 => 0,
        0x2011 => index,
        _ => unreachable!(),
    }
}

#[test]
fn driver_walk_keeps_the_accelerated_formats() {
    let mut found = Vec::new();
    let mut walk = enumerate_arb_pixel_formats(&WindowWrapper(7, 9));
    let mut calls = 0;
    loop {
        match walk.action() {
            Action::QueryAttribute { hdc, index, layer, attribute } => {
                assert_eq!((hdc, layer), (9, 0));
                if calls == 0 {
                    assert_eq!((index, attribute), (1, 0x2000));
                }
                calls += 1;
                let value = driver(index, attribute);
                walk = walk.step(&Reply::Attribute { value }, &mut found);
            }
            Action::Finish => break,
            other => panic!("{:?}", other),
        }
    }
    assert_eq!(walk, ArbEnumeration::Finished);
    assert_eq!(calls, 1 + 12 + 3 + 12);
    assert_eq!(found, vec![(format(true, false, false), 0), (format(true, false, true), 2)]);
}

#[test]
fn driver_walk_asks_in_order_and_stops_at_what_rules_out() {
    let mut found = Vec::new();
    let mut walk = enumerate_arb_pixel_formats(&WindowWrapper(7, 9))
        .step(&Reply::Attribute { value: 5 }, &mut found);
    let script = [
        (0, 0x2001, 0),
        (1, 0x2001, 1),
        (1, 0x2010, 0),
        (2, 0x2001, -1),
        (2, 0x2010, 2),
        (2, 0x2003, 0x2025),
        (3, 0x2001, 1),
        (3, 0x2010, 1),
        (3, 0x2003, 0),
        (3, 0x2013, 0x202C),
        (4, 0x2001, 1),
        (4, 0x2010, 1),
        (4, 0x2003, 0),
        (4, 0x2013, 0x202B),
        (4, 0x2015, 8),
        (4, 0x2017, 7),
        (4, 0x2019, 6),
        (4, 0x201B, 5),
        (4, 0x2022, 24),
        (4, 0x2023, 3),
        (4, 0x2012, 1),
        (4, 0x2011, 1),
    ];
    for (index, attribute, value) in script {
        assert_eq!(walk.action(), Action::QueryAttribute { hdc: 9, index, layer: 0, attribute });
        walk = walk.step(&Reply::Attribute { value }, &mut found);
    }
    assert_eq!(walk, ArbEnumeration::Finished);
    assert_eq!(found, vec![(format(true, true, true), 4)]);
}

#[test]
fn driver_walk_without_formats() {
    let mut found = Vec::new();
    let walk = enumerate_arb_pixel_formats(&WindowWrapper(7, 9))
        .step(&Reply::Attribute { value: 0 }, &mut found);
    assert_eq!(walk, ArbEnumeration::Finished);
    assert!(found.is_empty());
}

#[test]
fn format_is_described_and_then_set() {
    let setting = set_pixel_format(&WindowWrapper(7, 9), 12);
    assert_eq!(setting.action(), Action::DescribeChosen { hdc: 9, id: 12 });
    let setting = setting.step(described(1, 0x24, 0)).unwrap();
    assert_eq!(
        setting.action(),
        Action::SetPixelFormat { hdc: 9, id: 12, descriptor: descriptor(0x24, 0) }
    );
    assert_eq!(
        setting.step(Reply::Code { value: 1, os_error: String::new() }),
        Ok(FormatSetting::Finished)
    );
}

#[test]
fn format_that_cannot_be_described_or_set() {
    let setting = set_pixel_format(&WindowWrapper(7, 9), 12);
    assert_eq!(
        setting.step(described(0, 0x24, 0)),
        Err(Failure::DescribePixelFormat(String::from("no")))
    );
    let setting = setting.step(described(1, 0x24, 0)).unwrap();
    assert_eq!(
        setting.step(Reply::Code { value: 0, os_error: String::from("busy") }),
        Err(Failure::SetPixelFormat(String::from("busy")))
    );
}
