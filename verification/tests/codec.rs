use fw16_led_matrixd::matrix::{
    bootloader, crash, draw_bw, flush_columns, get_brightness, is_matrix_device, is_scrolling,
    pattern, render_double_gradient, render_fullbright, render_gradient, render_lotus_horizontal,
    render_lotus_vertical, render_pair, render_panic, render_percentage, render_single,
    render_zigzag, send_command, set_brightness, set_scroll, set_sleep, stage_column, version,
    Side,
};
use fw16_led_matrixd::version::Version;

fn ramp(len: usize) -> Vec<u8> {
    let mut v = Vec::new();
    for i in 0..len {
        v.push((i % 256) as u8);
    }
    v
}

#[test]
fn send_command_builds_magic_prefix() {
    let c = send_command(0x42, Some(vec![1, 2, 3]), 7);
    assert_eq!(c.request, vec![0x32, 0xAC, 0x42, 1, 2, 3]);
    assert_eq!(c.response_size, 7);
    let c = send_command(0x42, None, 0);
    assert_eq!(c.request, vec![0x32, 0xAC, 0x42]);
    assert_eq!(c.response_size, 0);
}

#[test]
fn brightness_requests() {
    let c = set_brightness(0x80);
    assert_eq!(c.request, vec![0x32, 0xAC, 0x00, 0x80]);
    assert_eq!(c.response_size, 0);
    let c = get_brightness();
    assert_eq!(c.request, vec![0x32, 0xAC, 0x00]);
    assert_eq!(c.response_size, 1);
}

#[test]
fn sleep_and_scroll_requests() {
    assert_eq!(set_sleep(true).request, vec![0x32, 0xAC, 0x03, 1]);
    assert_eq!(set_sleep(false).request, vec![0x32, 0xAC, 0x03, 0]);
    assert_eq!(set_scroll(true).request, vec![0x32, 0xAC, 0x04, 1]);
    assert_eq!(set_scroll(false).request, vec![0x32, 0xAC, 0x04, 0]);
    let c = is_scrolling();
    assert_eq!(c.request, vec![0x32, 0xAC, 0x04]);
    assert_eq!(c.response_size, 1);
}

#[test]
fn simple_requests() {
    assert_eq!(bootloader().request, vec![0x32, 0xAC, 0x02]);
    assert_eq!(crash().request, vec![0x32, 0xAC, 0x05]);
    assert_eq!(flush_columns().request, vec![0x32, 0xAC, 0x08]);
    let c = version();
    assert_eq!(c.request, vec![0x32, 0xAC, 0x20]);
    assert_eq!(c.response_size, 3);
}

#[test]
fn pattern_requests() {
    assert_eq!(pattern(0x03, None).request, vec![0x32, 0xAC, 0x01, 0x03]);
    assert_eq!(
        pattern(0x00, Some(55)).request,
        vec![0x32, 0xAC, 0x01, 0x00, 55]
    );
    assert_eq!(
        render_percentage(99).request,
        vec![0x32, 0xAC, 0x01, 0x00, 99]
    );
    assert_eq!(render_gradient().request, vec![0x32, 0xAC, 0x01, 0x01]);
    assert_eq!(
        render_double_gradient().request,
        vec![0x32, 0xAC, 0x01, 0x02]
    );
    assert_eq!(
        render_lotus_horizontal().request,
        vec![0x32, 0xAC, 0x01, 0x03]
    );
    assert_eq!(render_zigzag().request, vec![0x32, 0xAC, 0x01, 0x04]);
    assert_eq!(render_fullbright().request, vec![0x32, 0xAC, 0x01, 0x05]);
    assert_eq!(render_panic().request, vec![0x32, 0xAC, 0x01, 0x06]);
    assert_eq!(
        render_lotus_vertical().request,
        vec![0x32, 0xAC, 0x01, 0x07]
    );
}

#[test]
fn draw_bw_and_stage_column_requests() {
    let bitmap = ramp(39);
    let c = draw_bw(&bitmap);
    assert_eq!(c.request.len(), 3 + 39);
    assert_eq!(&c.request[..3], &[0x32, 0xAC, 0x06]);
    assert_eq!(&c.request[3..], &bitmap[..]);

    let vals = ramp(34);
    let c = stage_column(4, &vals);
    assert_eq!(c.request.len(), 3 + 1 + 34);
    assert_eq!(&c.request[..4], &[0x32, 0xAC, 0x07, 4]);
    assert_eq!(&c.request[4..], &vals[..]);
}

#[test]
fn single_render_decomposes_into_nine_columns_and_one_flush() {
    let frame = ramp(306);
    let calls = render_single(&frame);
    assert_eq!(calls.len(), 10);
    for col in 0..9usize {
        let c = &calls[col];
        assert_eq!(c.request[0], 0x32);
        assert_eq!(c.request[1], 0xAC);
        assert_eq!(c.request[2], 0x07);
        assert_eq!(c.request[3], col as u8);
        assert_eq!(&c.request[4..], &frame[34 * col..34 * col + 34]);
        assert_eq!(c.response_size, 0);
    }
    assert_eq!(calls[9].request, vec![0x32, 0xAC, 0x08]);
    assert_eq!(calls[9].response_size, 0);
}

#[test]
fn pair_render_wraps_to_right_device_at_column_nine() {
    let frame = ramp(612);
    let calls = render_pair(&frame);
    assert_eq!(calls.len(), 20);
    for col in 0..18usize {
        let (side, c) = &calls[col];
        if col < 9 {
            assert_eq!(*side, Side::Left);
            assert_eq!(c.request[3], col as u8);
        } else {
            assert_eq!(*side, Side::Right);
            assert_eq!(c.request[3], (col - 9) as u8);
        }
        assert_eq!(c.request[2], 0x07);
        assert_eq!(&c.request[4..], &frame[34 * col..34 * col + 34]);
    }
    assert_eq!(calls[18].0, Side::Left);
    assert_eq!(calls[18].1.request, vec![0x32, 0xAC, 0x08]);
    assert_eq!(calls[19].0, Side::Right);
    assert_eq!(calls[19].1.request, vec![0x32, 0xAC, 0x08]);
}

#[test]
fn matrix_device_ids() {
    assert!(is_matrix_device(0x32AC, 0x99));
    assert!(is_matrix_device(0x1111, 0x20));
    assert!(is_matrix_device(0x1111, 0x1F));
    assert!(!is_matrix_device(0x1111, 0x99));
}

#[test]
fn version_decoding() {
    let v = Version::from_bytes([1, 0x23, 0]);
    assert_eq!(v.major, 1);
    assert_eq!(v.minor, 2);
    assert_eq!(v.patch, 3);
    assert!(!v.pre_release);

    let v = Version::from_bytes([0, 0xFF, 9]);
    assert_eq!(v.major, 0);
    assert_eq!(v.minor, 15);
    assert_eq!(v.patch, 15);
    assert!(v.pre_release);

    assert!(Version::try_from_bytes(&vec![1, 2]).is_none());
    assert!(Version::try_from_bytes(&vec![1, 2, 3, 4]).is_none());
    let v = Version::try_from_bytes(&vec![2, 0x10, 0]).unwrap();
    assert_eq!((v.major, v.minor, v.patch, v.pre_release), (2, 1, 0, false));
}
