use chardevgpio::layout::ByteOrder;
use chardevgpio::uapi::{
    gpiochip_info, gpiohandle_data, gpiohandle_request, gpioline_info, Exchange, CHIP_INFO_SIZE,
    HANDLE_DATA_SIZE, HANDLE_REQUEST_SIZE, LINE_INFO_SIZE,
};
use chardevgpio::Chip;

const ORDERS: [ByteOrder; 2] = [ByteOrder::LittleEndian, ByteOrder::BigEndian];

fn buffer(text: &[u8]) -> [u8; 32] {
    let mut buf = [0u8; 32];
    buf[..text.len()].copy_from_slice(text);
    buf
}

fn sample_request() -> gpiohandle_request {
    let mut lineoffsets = [0u32; 64];
    for (i, o) in lineoffsets.iter_mut().enumerate() {
        *o = 0x0102_0304u32.wrapping_mul(i as u32 + 1);
    }
    let mut default_values = [0u8; 64];
    for (i, v) in default_values.iter_mut().enumerate() {
        *v = (i % 3) as u8;
    }
    gpiohandle_request {
        lineoffsets,
        flags: 0x8000_0001,
        default_values,
        consumer_label: buffer(b"test"),
        lines: 64,
        fd: -1,
    }
}

#[test]
fn record_sizes_are_those_of_the_exchanges() {
    assert_eq!(CHIP_INFO_SIZE, 68);
    assert_eq!(LINE_INFO_SIZE, 72);
    assert_eq!(HANDLE_REQUEST_SIZE, 364);
    assert_eq!(HANDLE_DATA_SIZE, 64);
    for order in ORDERS {
        assert_eq!(
            gpiochip_info::zeroed().to_bytes(order).len(),
            Exchange::GetChipInfo.record_size()
        );
        assert_eq!(
            gpioline_info::zeroed().to_bytes(order).len(),
            Exchange::GetLineInfo.record_size()
        );
        assert_eq!(
            gpiohandle_request::zeroed().to_bytes(order).len(),
            Exchange::GetLineHandle.record_size()
        );
    }
    assert_eq!(gpiohandle_data::zeroed().to_bytes().len(), Exchange::GetLineValues.record_size());
}

#[test]
fn zeroed_records_are_zero_bytes() {
    for order in ORDERS {
        assert_eq!(gpiochip_info::zeroed().to_bytes(order), vec![0u8; 68]);
        assert_eq!(gpioline_info::zeroed().to_bytes(order), vec![0u8; 72]);
        assert_eq!(gpiohandle_request::zeroed().to_bytes(order), vec![0u8; 364]);
    }
    assert_eq!(gpiohandle_data::zeroed().to_bytes(), vec![0u8; 64]);
}

#[test]
fn chip_info_layout_little_endian() {
    let record =
        gpiochip_info { name: buffer(b"gpiochip0"), label: buffer(b"pinctrl"), lines: 0x0102_0336 };
    let bytes = record.to_bytes(ByteOrder::LittleEndian);
    assert_eq!(&bytes[0..32], &buffer(b"gpiochip0"));
    assert_eq!(&bytes[32..64], &buffer(b"pinctrl"));
    assert_eq!(&bytes[64..68], &[0x36, 0x03, 0x02, 0x01]);
    assert_eq!(bytes, [&record.name[..], &record.label[..], &0x0102_0336u32.to_le_bytes()].concat());
}

#[test]
fn chip_info_layout_big_endian() {
    let record =
        gpiochip_info { name: buffer(b"gpiochip0"), label: buffer(b"pinctrl"), lines: 0x0102_0336 };
    let bytes = record.to_bytes(ByteOrder::BigEndian);
    assert_eq!(&bytes[0..64], &record.to_bytes(ByteOrder::LittleEndian)[0..64]);
    assert_eq!(&bytes[64..68], &[0x01, 0x02, 0x03, 0x36]);
}

#[test]
fn line_info_layout() {
    let record = gpioline_info {
        line_offset: 22,
        flags: 0x0000_0102,
        name: buffer(b"GPIO22"),
        consumer: buffer(b"test"),
    };
    let le = record.to_bytes(ByteOrder::LittleEndian);
    assert_eq!(&le[0..4], &[22, 0, 0, 0]);
    assert_eq!(&le[4..8], &[0x02, 0x01, 0, 0]);
    assert_eq!(&le[8..40], &buffer(b"GPIO22"));
    assert_eq!(&le[40..72], &buffer(b"test"));
    let be = record.to_bytes(ByteOrder::BigEndian);
    assert_eq!(&be[0..4], &[0, 0, 0, 22]);
    assert_eq!(&be[4..8], &[0, 0, 0x01, 0x02]);
    assert_eq!(&be[8..72], &le[8..72]);
}

#[test]
fn handle_request_layout() {
    let record = sample_request();
    let le = record.to_bytes(ByteOrder::LittleEndian);
    let be = record.to_bytes(ByteOrder::BigEndian);
    for i in 0..64 {
        assert_eq!(&le[4 * i..4 * i + 4], &record.lineoffsets[i].to_le_bytes());
        assert_eq!(&be[4 * i..4 * i + 4], &record.lineoffsets[i].to_be_bytes());
    }
    assert_eq!(&le[256..260], &[0x01, 0, 0, 0x80]);
    assert_eq!(&be[256..260], &[0x80, 0, 0, 0x01]);
    assert_eq!(&le[260..324], &record.default_values);
    assert_eq!(&le[324..356], &buffer(b"test"));
    assert_eq!(&le[356..360], &[64, 0, 0, 0]);
    assert_eq!(&be[356..360], &[0, 0, 0, 64]);
    assert_eq!(&le[360..364], &[0xff, 0xff, 0xff, 0xff]);
    assert_eq!(&be[260..356], &le[260..356]);
}

#[test]
fn handle_request_descriptor_bytes() {
    let mut record = gpiohandle_request::zeroed();
    record.fd = 0x0102_0304;
    assert_eq!(&record.to_bytes(ByteOrder::LittleEndian)[360..], &[4, 3, 2, 1]);
    assert_eq!(&record.to_bytes(ByteOrder::BigEndian)[360..], &[1, 2, 3, 4]);
    record.fd = i32::MIN;
    assert_eq!(&record.to_bytes(ByteOrder::LittleEndian)[360..], &[0, 0, 0, 0x80]);
}

#[test]
fn handle_data_layout() {
    let mut record = gpiohandle_data::zeroed();
    record.values[0] = 1;
    record.values[63] = 1;
    let bytes = record.to_bytes();
    assert_eq!(bytes, record.values.to_vec());
}

#[test]
fn records_read_back_from_their_bytes() {
    for order in ORDERS {
        let chip =
            gpiochip_info { name: buffer(b"gpiochip0"), label: [0xff; 32], lines: u32::MAX };
        assert_eq!(gpiochip_info::from_bytes(&chip.to_bytes(order), order), Some(chip));
        let line = gpioline_info {
            line_offset: 0xdead_beef,
            flags: 0x0000_00ff,
            name: buffer(b"GPIO22"),
            consumer: [b'c'; 32],
        };
        assert_eq!(gpioline_info::from_bytes(&line.to_bytes(order), order), Some(line));
        let request = sample_request();
        assert_eq!(gpiohandle_request::from_bytes(&request.to_bytes(order), order), Some(request));
    }
    let mut data = gpiohandle_data::zeroed();
    data.values[5] = 1;
    assert_eq!(gpiohandle_data::from_bytes(&data.to_bytes()), Some(data));
}

#[test]
fn bytes_are_laid_out_back_from_their_record() {
    let bytes: Vec<u8> = (0..364u32).map(|i| (i * 7 + 3) as u8).collect();
    for order in ORDERS {
        let chip = gpiochip_info::from_bytes(&bytes[..68], order).unwrap();
        assert_eq!(chip.to_bytes(order), &bytes[..68]);
        let line = gpioline_info::from_bytes(&bytes[..72], order).unwrap();
        assert_eq!(line.to_bytes(order), &bytes[..72]);
        let request = gpiohandle_request::from_bytes(&bytes, order).unwrap();
        assert_eq!(request.to_bytes(order), bytes);
    }
    let data = gpiohandle_data::from_bytes(&bytes[..64]).unwrap();
    assert_eq!(data.to_bytes(), &bytes[..64]);
}

#[test]
fn reading_a_record_in_the_other_order_swaps_the_bytes() {
    let record = gpiochip_info { name: [0; 32], label: [0; 32], lines: 0x0102_0304 };
    let bytes = record.to_bytes(ByteOrder::LittleEndian);
    let other = gpiochip_info::from_bytes(&bytes, ByteOrder::BigEndian).unwrap();
    assert_eq!(other.lines, 0x0403_0201);
}

#[test]
fn bytes_of_another_size_are_no_record() {
    for order in ORDERS {
        assert_eq!(gpiochip_info::from_bytes(&[0u8; 67], order), None);
        assert_eq!(gpiochip_info::from_bytes(&[0u8; 69], order), None);
        assert_eq!(gpiochip_info::from_bytes(&[], order), None);
        assert_eq!(gpioline_info::from_bytes(&[0u8; 68], order), None);
        assert_eq!(gpioline_info::from_bytes(&[0u8; 73], order), None);
        assert_eq!(gpiohandle_request::from_bytes(&[0u8; 363], order), None);
        assert_eq!(gpiohandle_request::from_bytes(&[0u8; 365], order), None);
    }
    assert_eq!(gpiohandle_data::from_bytes(&[0u8; 63]), None);
    assert_eq!(gpiohandle_data::from_bytes(&[0u8; 65]), None);
}

#[test]
fn reading_request_as_bytes() {
    let chip = Chip::new(3, Ok(gpiochip_info { name: [0; 32], label: [0; 32], lines: 54 })).unwrap();
    let request = chip.reading_lines_request(&[22, 4], "test").unwrap();
    let bytes = request.record.to_bytes(ByteOrder::LittleEndian);
    let mut expected = vec![0u8; 364];
    expected[0] = 22;
    expected[4] = 4;
    expected[256] = 1;
    expected[324..328].copy_from_slice(b"test");
    expected[356] = 2;
    assert_eq!(bytes, expected);
}
