use it8951::{
    Area, Command, ConfigError, DecodeError, DisplayArea, Inquiry, It8951, Mode,
    ScsiOverUsbConnection, Step, SystemInfo, Transaction, SYSTEM_INFO_LEN,
};

const BASE: u32 = 0x0012_3456;

fn system_info_reply(mode: u32) -> Vec<u8> {
    let mut words: Vec<u32> = (0..28).map(|i| i as u32 + 100).collect();
    words[4] = 1872;
    words[5] = 1404;
    words[7] = BASE;
    words[9] = mode;
    words.iter().flat_map(|w| w.to_be_bytes()).collect()
}

fn device(max_transfer: u32) -> It8951 {
    let mut dev = It8951::new(ScsiOverUsbConnection::new(0x02, 0x81, 1000, 3), max_transfer);
    let _ = dev.get_sys();
    dev.store_system_info(&system_info_reply(2)).unwrap();
    dev
}

fn be(b: &[u8], i: usize) -> u32 {
    u32::from_be_bytes([b[i], b[i + 1], b[i + 2], b[i + 3]])
}

fn tag(tx: &Transaction) -> u32 {
    let c = tx.cbw();
    u32::from_le_bytes([c[4], c[5], c[6], c[7]])
}

/// (command byte 6, address, x, y, w, h) of a load, and its pixels.
fn load_of(tx: &Transaction) -> ((u8, u32, u32, u32, u32, u32), Vec<u8>) {
    let p = tx.payload();
    (
        (tx.cbw()[15 + 6], be(p, 0), be(p, 4), be(p, 8), be(p, 12), be(p, 16)),
        p[20..].to_vec(),
    )
}

#[test]
fn region_in_one_band() {
    let mut dev = device(20 + 20);
    let pixels: Vec<u8> = (0..20).collect();
    let txs = dev.update_region(&pixels, 4, 5, 7, 9, Mode::GC16).unwrap();
    assert_eq!(txs.len(), 2);
    let (area, data) = load_of(&txs[0]);
    assert_eq!(area, (0xa2, BASE, 7, 9, 4, 5));
    assert_eq!(data, pixels);
    assert_eq!(&txs[0].cbw()[8..12], &[40, 0, 0, 0]);
    let d = txs[1].payload();
    assert_eq!(txs[1].cbw()[15 + 6], 0x94);
    assert_eq!(d.len(), 28);
    assert_eq!(
        (be(d, 0), be(d, 4), be(d, 8), be(d, 12), be(d, 16), be(d, 20), be(d, 24)),
        (BASE, 2, 7, 9, 4, 5, 1)
    );
    assert!(txs.iter().all(|t| t.step() == Step::SendCommand));
}

#[test]
fn region_in_four_bands() {
    let mut dev = device(20 + 300);
    let pixels: Vec<u8> = (0..1000).map(|i| (i % 251) as u8).collect();
    let txs = dev.update_region(&pixels, 10, 100, 0, 0, Mode::DU).unwrap();
    assert_eq!(txs.len(), 5);
    let rows = [(0, 30), (30, 30), (60, 30), (90, 10)];
    for (k, (start, h)) in rows.iter().enumerate() {
        let (area, data) = load_of(&txs[k]);
        assert_eq!(area, (0xa2, BASE, 0, *start, 10, *h));
        let from = (*start * 10) as usize;
        let to = ((*start + *h) * 10) as usize;
        assert_eq!(data, pixels[from..to].to_vec());
    }
    let d = txs[4].payload();
    assert_eq!(
        (be(d, 0), be(d, 4), be(d, 8), be(d, 12), be(d, 16), be(d, 20), be(d, 24)),
        (BASE, 1, 0, 0, 10, 100, 1)
    );
    let tags: Vec<u32> = txs.iter().map(tag).collect();
    assert_eq!(tags, vec![2, 3, 4, 5, 6]);
}

#[test]
fn region_twice_differs_only_in_tags() {
    let mut dev = device(20 + 300);
    let pixels: Vec<u8> = (0..1000).map(|i| (i % 7) as u8).collect();
    let first = dev.update_region(&pixels, 10, 100, 3, 4, Mode::A2).unwrap();
    let second = dev.update_region(&pixels, 10, 100, 3, 4, Mode::A2).unwrap();
    assert_eq!(first.len(), second.len());
    for (a, b) in first.iter().zip(second.iter()) {
        assert_eq!(a.payload(), b.payload());
        assert_eq!(a.cbw()[..4], b.cbw()[..4]);
        assert_eq!(a.cbw()[8..], b.cbw()[8..]);
    }
    let tags: Vec<u32> = first.iter().chain(second.iter()).map(tag).collect();
    assert!(tags.windows(2).all(|w| w[0] < w[1]));
}

#[test]
fn region_with_zero_width_is_refused() {
    let mut dev = device(20 + 300);
    let before = dev.connection().next_tag();
    assert!(matches!(
        dev.update_region(&[], 0, 5, 0, 0, Mode::GC16),
        Err(ConfigError::InvalidGeometry)
    ));
    assert_eq!(dev.connection().next_tag(), before);
}

#[test]
fn region_wider_than_quota_is_refused() {
    let mut dev = device(20 + 9);
    let before = dev.connection().next_tag();
    let pixels = vec![0u8; 20];
    assert!(matches!(
        dev.update_region(&pixels, 10, 2, 0, 0, Mode::GC16),
        Err(ConfigError::InvalidGeometry)
    ));
    let mut tiny = device(10);
    assert!(matches!(
        tiny.update_region(&pixels, 10, 2, 0, 0, Mode::GC16),
        Err(ConfigError::InvalidGeometry)
    ));
    assert_eq!(dev.connection().next_tag(), before);
}

#[test]
fn region_without_system_info_is_refused() {
    let mut dev = It8951::new(ScsiOverUsbConnection::new(0x02, 0x81, 1000, 3), 61440);
    assert!(matches!(
        dev.update_region(&[1, 2], 2, 1, 0, 0, Mode::GC16),
        Err(ConfigError::NoSystemInfo)
    ));
    assert_eq!(dev.connection().next_tag(), 1);
}

#[test]
fn system_info_decodes_big_endian_words() {
    let info = SystemInfo::decode(&system_info_reply(6)).unwrap();
    assert_eq!(info.standard_cmd_no, 100);
    assert_eq!(info.version, 103);
    assert_eq!(info.width, 1872);
    assert_eq!(info.height, 1404);
    assert_eq!(info.image_buffer_base, BASE);
    assert_eq!(info.mode, Mode::DU4);
    assert_eq!(info.frame_count, [110, 111, 112, 113, 114, 115, 116, 117]);
    assert_eq!(info.num_img_buf, 118);
    assert_eq!(info.reserved, [119, 120, 121, 122, 123, 124, 125, 126, 127]);
}

#[test]
fn system_info_rejects_bad_replies() {
    assert_eq!(SystemInfo::decode(&system_info_reply(9)).err(), Some(DecodeError::UnknownMode));
    let reply = system_info_reply(2);
    assert_eq!(
        SystemInfo::decode(&reply[..SYSTEM_INFO_LEN - 1]).err(),
        Some(DecodeError::SizeMismatch)
    );
}

#[test]
fn system_info_is_kept_once() {
    let mut dev = device(61440);
    assert_eq!(dev.get_system_info().unwrap().mode, Mode::GC16);
    dev.store_system_info(&system_info_reply(7)).unwrap();
    assert_eq!(dev.get_system_info().unwrap().mode, Mode::GC16);
    let mut fresh = It8951::new(ScsiOverUsbConnection::new(0x02, 0x81, 1000, 3), 61440);
    assert!(fresh.get_system_info().is_none());
    assert_eq!(fresh.store_system_info(&[0; 4]), Err(DecodeError::SizeMismatch));
    assert!(fresh.get_system_info().is_none());
}

#[test]
fn inquiry_decodes_text_fields() {
    let mut reply = vec![0u8; 8];
    reply.extend_from_slice(b"Generic ");
    reply.extend_from_slice(b"Storage RamDisc ");
    reply.extend_from_slice(b"1.00");
    reply.extend_from_slice(&[0, 0, 0, 0]);
    let inquiry = Inquiry::decode(&reply).unwrap();
    assert_eq!(inquiry.vendor, "Generic ");
    assert_eq!(inquiry.product, "Storage RamDisc ");
    assert_eq!(inquiry.revision, "1.00");
}

#[test]
fn inquiry_rejects_bad_replies() {
    let mut reply = vec![b'a'; 40];
    reply[20] = 0xff;
    assert!(matches!(Inquiry::decode(&reply), Err(DecodeError::NotUtf8)));
    assert!(matches!(Inquiry::decode(&reply[..39]), Err(DecodeError::SizeMismatch)));
}

#[test]
fn inquiry_and_get_sys_frame_read_commands() {
    let mut dev = It8951::new(ScsiOverUsbConnection::new(0x02, 0x81, 1000, 3), 61440);
    let inq = dev.inquiry();
    assert_eq!(&inq.cbw()[8..16], &[40, 0, 0, 0, 0x80, 0, 16, 0x12]);
    assert_eq!(inq.step(), Step::SendCommand);
    let sys = dev.get_sys();
    assert_eq!(
        &sys.cbw()[15..],
        &[0xfe, 0, 0x38, 0x39, 0x35, 0x31, 0x80, 0, 0x01, 0, 0x02, 0, 0, 0, 0, 0]
    );
    assert_eq!(&sys.cbw()[4..12], &[2, 0, 0, 0, 112, 0, 0, 0]);
}

#[test]
fn load_and_display_commands_carry_their_areas() {
    let mut dev = device(61440);
    let area = Area { address: 1, x: 2, y: 3, w: 2, h: 1 };
    let load = dev.ld_image_area(area, &[0xaa, 0xbb]);
    assert_eq!(load.payload()[..8], [0, 0, 0, 1, 0, 0, 0, 2]);
    assert_eq!(load.payload()[20..], [0xaa, 0xbb]);
    assert_eq!(&load.cbw()[8..12], &[22, 0, 0, 0]);
    let shown = DisplayArea { address: 1, display_mode: Mode::INIT, x: 0, y: 0, w: 2, h: 1, wait_ready: 1 };
    let display = dev.dpy_area(shown);
    assert_eq!(display.payload().len(), 28);
    assert_eq!(&display.cbw()[8..12], &[28, 0, 0, 0]);
}

#[test]
fn area_encodings_are_big_endian() {
    let area = Area { address: 0x01020304, x: 5, y: 6, w: 7, h: 0x0a0b0c0d };
    let bytes = area.to_bytes();
    assert_eq!(bytes[..4], [1, 2, 3, 4]);
    assert_eq!(bytes[16..], [0x0a, 0x0b, 0x0c, 0x0d]);
    let d = DisplayArea {
        address: 9,
        display_mode: Mode::__UNKNOWN1,
        x: 1,
        y: 2,
        w: 3,
        h: 4,
        wait_ready: 1,
    };
    let bytes = d.to_bytes();
    assert_eq!(bytes[4..8], [0, 0, 0, 8]);
    assert_eq!(bytes[24..], [0, 0, 0, 1]);
}

#[test]
fn modes_keep_their_numbers_and_names() {
    let all = [
        Mode::INIT,
        Mode::DU,
        Mode::GC16,
        Mode::GL16,
        Mode::GLR16,
        Mode::GLD16,
        Mode::DU4,
        Mode::A2,
        Mode::__UNKNOWN1,
    ];
    for (n, m) in all.iter().enumerate() {
        assert_eq!(m.number(), n as u32);
        assert_eq!(Mode::from_number(n as u32), Some(*m));
    }
    assert_eq!(Mode::from_number(9), None);
    assert_eq!(Mode::GC16.name(), "GC16");
    assert_eq!(Mode::DU4.name(), "DU4");
}

#[test]
fn commands_render_their_bytes() {
    assert_eq!(Command::Inquiry.bytes()[0], 0x12);
    assert_eq!(Command::LoadImageArea.bytes()[6], 0xa2);
    assert_eq!(Command::DisplayArea.bytes()[6], 0x94);
    assert_eq!(&Command::GetSystemInfo.bytes()[2..6], b"8951");
}
