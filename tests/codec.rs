use bolos::seproxyhal::command::Command;
use bolos::seproxyhal::event::{ButtonPushEvent, Event};
use bolos::seproxyhal::packet::{send, FourByteIterator, Packet};
use bolos::seproxyhal::status::{
    GeneralStatus, ScreenDisplayCustomIconStatus, ScreenDisplayShapeStatus, ScreenDisplayStatus,
    ScreenDisplayStatusTypeId, ScreenDisplaySystemIconStatus, ScreenDisplayTextStatus, Status,
};

fn encode<P: Packet>(p: &P) -> Vec<u8> {
    let mut buf = vec![0u8; 70000];
    let n = p.to_bytes(&mut buf, 0);
    buf.truncate(n);
    buf
}

fn shape() -> ScreenDisplayShapeStatus {
    ScreenDisplayShapeStatus {
        type_id: ScreenDisplayStatusTypeId::Rectangle,
        user_id: 3,
        x: -2,
        y: 0x0102,
        width: 128,
        height: 32,
        stroke: 4,
        radius: 5,
        fill: 1,
        foreground_color: 0x00112233,
        background_color: 0xFFFFFF,
    }
}

#[test]
fn general_status_frame() {
    let s = GeneralStatus {};
    assert_eq!(s.bytes_size(), 5);
    assert_eq!(encode(&s), vec![0x60, 0, 2, 0, 0]);
}

#[test]
fn shape_status_header_layout() {
    let s = shape();
    let bytes = encode(&s);
    assert_eq!(s.bytes_size() as usize, 31);
    assert_eq!(
        bytes,
        vec![
            0x65, 0, 28, // envelope, length big-endian
            3, 3, // type, user id
            0xFE, 0xFF, // x = -2 little-endian
            0x02, 0x01, // y
            128, 0, // width
            32, 0, // height
            4, 5, 1, 0, 0, 0, // stroke, radius, fill, gap
            0x33, 0x22, 0x11, 0x00, // foreground little-endian
            0xFF, 0xFF, 0xFF, 0x00, // background
            0, 0, // font id
            0, 0, // icon id, gap
        ]
    );
}

#[test]
fn text_status_carries_utf8_text() {
    let s = ScreenDisplayTextStatus {
        type_id: ScreenDisplayStatusTypeId::LabelLine,
        user_id: 0,
        x: 0,
        y: 22,
        width: 128,
        height: 12,
        scroll_delay: 0x8A,
        scroll_speed: 26,
        fill: 1,
        foreground_color: 0xFFFFFF,
        background_color: 0,
        font_id: 10 | 0x8000,
        text: "Hé!",
    };
    let bytes = encode(&s);
    assert_eq!(bytes.len(), 3 + 28 + 4);
    assert_eq!(&bytes[0..3], &[0x65, 0, 32]);
    assert_eq!(bytes[3 + 10], 0x8A);
    assert_eq!(&bytes[3 + 24..3 + 28], &[0x0A, 0x80, 26, 0]);
    assert_eq!(&bytes[31..], "Hé!".as_bytes());
}

#[test]
fn overlong_text_is_cut_at_frame_size() {
    let text = "x".repeat(70000);
    let s = ScreenDisplayTextStatus {
        type_id: ScreenDisplayStatusTypeId::LabelLine,
        user_id: 0,
        x: 0,
        y: 0,
        width: 0,
        height: 0,
        scroll_delay: 0,
        scroll_speed: 0,
        fill: 0,
        foreground_color: 0,
        background_color: 0,
        font_id: 0,
        text: &text,
    };
    assert_eq!(s.bytes_size(), 65535);
    let bytes = encode(&s);
    assert_eq!(bytes.len(), 65535);
    assert_eq!(&bytes[0..3], &[0x65, 0xFF, 0xFC]);
    assert!(bytes[31..].iter().all(|b| *b == b'x'));
}

#[test]
fn system_icon_status_frame() {
    let s = ScreenDisplaySystemIconStatus { user_id: 0, x: 3, y: 14, width: 7, height: 4, icon_id: 11 };
    let bytes = encode(&s);
    assert_eq!(bytes.len(), 31);
    assert_eq!(bytes[3], 5);
    assert_eq!(bytes[3 + 26], 11);
}

#[test]
fn custom_icon_status_palette_and_bitmap() {
    let colors = [0x00000000u32, 0x00ffffff];
    let bitmap = [0xe0u8, 0x01, 0xfe];
    let s = ScreenDisplayCustomIconStatus {
        user_id: 0,
        x: 1,
        y: 2,
        width: 14,
        height: 14,
        bits_per_pixel: 1,
        colors: &colors,
        bitmap: &bitmap,
    };
    let bytes = encode(&s);
    assert_eq!(bytes.len(), 3 + 28 + 1 + 8 + 3);
    assert_eq!(&bytes[0..3], &[0x65, 0, 40]);
    assert_eq!(&bytes[31..], &[1, 0, 0, 0, 0, 0xff, 0xff, 0xff, 0, 0xe0, 0x01, 0xfe]);
}

#[test]
fn chunked_writes_reassemble_the_frame() {
    let text = "A line of text long enough to need more than one chunk of sixty-four bytes";
    let s = Status::ScreenDisplay(ScreenDisplayStatus::Text(ScreenDisplayTextStatus {
        type_id: ScreenDisplayStatusTypeId::LabelLine,
        user_id: 1,
        x: 0,
        y: 0,
        width: 100,
        height: 12,
        scroll_delay: 0,
        scroll_speed: 0,
        fill: 0,
        foreground_color: 0x123456,
        background_color: 0,
        font_id: 8,
        text,
    }));
    let whole = encode(&s);
    for sizes in [vec![1usize], vec![3, 5, 7], vec![64], vec![2, 30, 1, 64], vec![200]] {
        let mut out = Vec::new();
        let mut offset = 0;
        let mut k = 0;
        while offset < whole.len() {
            let mut buf = vec![0xAAu8; sizes[k % sizes.len()]];
            let n = s.to_bytes(&mut buf, offset);
            assert_eq!(n, buf.len().min(whole.len() - offset));
            out.extend_from_slice(&buf[..n]);
            offset += n;
            k += 1;
        }
        assert_eq!(out, whole);
    }
}

#[test]
fn writes_past_the_end_write_nothing() {
    let s = GeneralStatus {};
    let mut buf = [9u8; 4];
    assert_eq!(s.to_bytes(&mut buf, 5), 0);
    assert_eq!(s.to_bytes(&mut buf, 17), 0);
    assert_eq!(buf, [9, 9, 9, 9]);
    assert_eq!(s.to_bytes(&mut buf, 3), 2);
    assert_eq!(buf, [0, 0, 9, 9]);
}

#[test]
fn send_splits_into_sixty_four_byte_chunks() {
    let bitmap = vec![7u8; 100];
    let s = ScreenDisplayCustomIconStatus {
        user_id: 0,
        x: 0,
        y: 0,
        width: 10,
        height: 10,
        bits_per_pixel: 1,
        colors: &[],
        bitmap: &bitmap,
    };
    let chunks = send(&s);
    let sizes: Vec<usize> = chunks.iter().map(|c| c.len()).collect();
    assert_eq!(sizes, vec![64, 64, 4]);
    assert_eq!(chunks.concat(), encode(&s));
}

#[test]
fn command_frame() {
    let payload = [1u8, 2, 3];
    let c = Command { tag: 0x50, payload: &payload };
    assert_eq!(encode(&c), vec![0x50, 0, 3, 1, 2, 3]);
}

#[test]
fn four_byte_iterator_hands_out_each_byte() {
    let mut it = FourByteIterator::new([1, 2, 3, 4]);
    assert_eq!(it.next(), Some(1));
    assert_eq!(it.next(), Some(2));
    assert_eq!(it.next(), Some(3));
    assert_eq!(it.next(), Some(4));
    assert_eq!(it.next(), None);
    assert_eq!(it.next(), None);
}

#[test]
fn decode_button_push() {
    assert_eq!(
        Event::from_bytes(&[0x05, 0x00, 0x01, 0x06]),
        Some(Event::ButtonPush(ButtonPushEvent { flags: 6 }))
    );
}

#[test]
fn decode_display_processed_and_ticker() {
    assert!(matches!(Event::from_bytes(&[0x0D, 0, 0]), Some(Event::DisplayProcessed(_))));
    assert!(matches!(Event::from_bytes(&[0x0E, 0, 0, 0xFF]), Some(Event::Ticker(_))));
}

#[test]
fn decode_rejects_bad_frames() {
    assert_eq!(Event::from_bytes(&[0x05, 0]), None);
    assert_eq!(Event::from_bytes(&[0x05, 0, 2, 1]), None);
    assert_eq!(Event::from_bytes(&[0x05, 1, 0, 1]), None);
    assert_eq!(Event::from_bytes(&[0x05, 0, 2, 1, 2]), None);
    assert_eq!(Event::from_bytes(&[0x0D, 0, 1, 0]), None);
    assert_eq!(Event::from_bytes(&[0x42, 0, 0]), None);
}
