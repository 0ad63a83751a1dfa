use stregsystemet_tui::error::AppError;
use stregsystemet_tui::formatters::{format_error_message, split_error_message, truncate_text};
use stregsystemet_tui::html::sanitize_html;
use stregsystemet_tui::layout::{calculate_product_column_layout, truncate_with_ellipsis, ColumnLayoutConfig};
use stregsystemet_tui::models::{Product, Sale};
use stregsystemet_tui::money::Money;
use stregsystemet_tui::vehicle::{extract_content_by_id, vehicle_info_from_html};

#[test]
fn error_message_wraps_words() {
    assert_eq!(format_error_message("hello world foo", 11, 10), "hello world\nfoo");
    assert_eq!(format_error_message("  spaced   out  ", 50, 10), "spaced out");
    assert_eq!(format_error_message("", 10, 3), "");
}

#[test]
fn error_message_keeps_at_most_the_line_limit() {
    assert_eq!(format_error_message("aa bb cc dd", 2, 3), "aa\nbb\n...");
}

#[test]
fn split_error_lines() {
    assert!(split_error_message("", 20).is_empty());
    assert_eq!(split_error_message("too narrow here", 5), vec!["too narrow here"]);
    assert_eq!(
        split_error_message("one two three four five six seven", 10),
        vec!["one two", "three four", "five six", "seven"]
    );
    assert_eq!(
        split_error_message("a1 b2 c3 d4 e5 f6 g7 h8 i9 j0 k1 l2 m3", 10),
        vec!["a1 b2 c3", "d4 e5 f6", "g7 h8 i9", "..."]
    );
}

#[test]
fn html_is_stripped() {
    assert_eq!(sanitize_html("<p>Hello</p><div>World</div>"), "Hello World");
    assert_eq!(sanitize_html("<b>Cola</b>(0.5L)"), "Cola (0.5L)");
    assert_eq!(sanitize_html("  a \n\t b  "), "a b");
    assert_eq!(sanitize_html("x<br>y"), "x y");
    assert_eq!(sanitize_html("x<span>y</span>"), "xy");
}

#[test]
fn truncation() {
    assert_eq!(truncate_text("Hello World", 8), "Hello...");
    assert_eq!(truncate_text("Hi", 8), "Hi");
    assert_eq!(truncate_with_ellipsis("Hello World", 8), "Hello...");
    assert_eq!(truncate_with_ellipsis("Hello World", 3), "Hel");
    assert_eq!(truncate_with_ellipsis("Hello", 5), "Hello");
}

#[test]
fn column_layout() {
    let products = vec![
        Product { id: "1".to_string(), name: "A".to_string(), price: Money::new(1000) },
        Product { id: "123".to_string(), name: "B".to_string(), price: Money::new(12345) },
    ];
    let layout = calculate_product_column_layout(
        &products,
        ColumnLayoutConfig { content_width: 80, id_suffix_width: 2, right_margin: 1 },
    );
    assert_eq!(layout.id_column_width, 5);
    assert_eq!(layout.price_column_width, 10);
    assert_eq!(layout.name_column_width, 64);
}

#[test]
fn vehicle_fields_are_read_from_the_page() {
    let page = r#"<td id="maerke"> Toyota </td><td id="model">Yaris</td><td id="variant"></td>"#;
    assert_eq!(extract_content_by_id(page, "maerke").as_deref(), Some("Toyota"));
    assert_eq!(extract_content_by_id(page, "missing"), None);
    let info = vehicle_info_from_html(page);
    assert_eq!(info.model.as_deref(), Some("Yaris"));
    assert_eq!(info.variant, None);
}

#[test]
fn sale_timestamps() {
    let sale = Sale {
        timestamp: "2024-01-15T10:30:00+01:00".to_string(),
        product: "Cola".to_string(),
        price: Money::new(1000),
    };
    assert_eq!(sale.formatted_timestamp(), "15/01/2024 10:30");
    let bad = Sale { timestamp: "yesterday".to_string(), ..sale };
    assert_eq!(bad.formatted_timestamp(), "Invalid date");
}

#[test]
fn error_text() {
    assert_eq!(AppError::Input("x".into()).to_display_string(), "Input error: x");
    assert_eq!(AppError::Config("y".into()).to_display_string(), "Configuration error: y");
    assert_eq!(AppError::Io("z".into()).to_display_string(), "I/O error: z");
}

#[test]
fn early_years_keep_four_digits() {
    let sale = Sale {
        timestamp: "0005-03-07T04:09:00Z".to_string(),
        product: "Tea".to_string(),
        price: Money::new(1),
    };
    assert_eq!(sale.formatted_timestamp(), "07/03/0005 04:09");
}
