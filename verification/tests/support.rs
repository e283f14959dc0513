use fw16_led_matrixd::config::{Config, ConfigError, Matrix};
use fw16_led_matrixd::image::to_column_major;

#[test]
fn config_needs_at_least_one_endpoint() {
    let c = Config {
        left_matrix: None,
        right_matrix: None,
    };
    assert!(matches!(c.check(), Err(ConfigError::MissingMatrix)));

    let c = Config {
        left_matrix: Some(Matrix {
            port: String::from("/dev/ttyACM0"),
            baudrate: 115200,
            sleeping: false,
        }),
        right_matrix: None,
    };
    assert!(c.check().is_ok());
}

#[test]
fn column_major_reorders_a_row_major_buffer() {
    // Two columns of 34 rows, value = row * 2 + column.
    let width = 2usize;
    let mut frame = Vec::new();
    for row in 0..34usize {
        for col in 0..width {
            frame.push((row * width + col) as u8);
        }
    }
    let out = to_column_major(frame, width, 34);
    assert_eq!(out.len(), width * 34);
    for col in 0..width {
        for row in 0..34usize {
            assert_eq!(out[col * 34 + row], (row * width + col) as u8);
        }
    }
}

#[test]
fn column_major_of_an_empty_buffer_is_empty() {
    let out = to_column_major(Vec::new(), 0, 34);
    assert!(out.is_empty());
}
