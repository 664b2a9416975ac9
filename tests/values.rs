use adt_playground::color::Color;
use adt_playground::direction::Direction;
use adt_playground::either::{Either, EitherType};
use adt_playground::light::TrafficLight;
use adt_playground::list::first_element;
use adt_playground::message::{Message, MessageType};
use adt_playground::point::Point;
use adt_playground::text::{int_to_text, nat_to_text};

#[test]
fn traffic_lights_read_differently() {
    let red = TrafficLight::red().to_string();
    let yellow = TrafficLight::yellow().to_string();
    let green = TrafficLight::green().to_string();
    assert_eq!(red, "赤信号");
    assert_eq!(yellow, "黄信号");
    assert_eq!(green, "青信号");
    assert_ne!(red, yellow);
    assert_ne!(red, green);
    assert_ne!(yellow, green);
}

#[test]
fn messages_process() {
    assert_eq!(Message::quit().process(), "終了します");
    assert_eq!(Message::move_to(10, 20).process(), "位置 (10, 20) に移動します");
    assert_eq!(Message::move_to(-3, 0).process(), "位置 (-3, 0) に移動します");
    assert_eq!(Message::write("こんにちは").process(), "メッセージ: こんにちは");
    assert_eq!(Message::write("").process(), "メッセージ: ");
    assert_eq!(
        Message::change_color(255, 0, 0).process(),
        "色を (255, 0, 0) に変更します"
    );
}

#[test]
fn messages_missing_payload_fall_back() {
    let blank = |msg_type: MessageType| Message {
        msg_type,
        x: None,
        y: None,
        text: None,
        r: None,
        g: None,
        b: None,
    };
    assert_eq!(blank(MessageType::Move).process(), "無効な移動メッセージ");
    assert_eq!(blank(MessageType::Write).process(), "空のメッセージ");
    assert_eq!(blank(MessageType::ChangeColor).process(), "無効な色変更メッセージ");
    let mut half = blank(MessageType::Move);
    half.x = Some(1);
    assert_eq!(half.process(), "無効な移動メッセージ");
}

#[test]
fn either_formats() {
    assert_eq!(Either::left(42).format(), "Left(42)");
    assert_eq!(Either::left(-7).format(), "Left(-7)");
    assert_eq!(Either::right("x").format(), "Right(\"x\")");
    let bad_left = Either { either_type: EitherType::Left, left_value: None, right_value: None };
    assert_eq!(bad_left.format(), "Invalid Left value");
    let bad_right = Either { either_type: EitherType::Right, left_value: Some(1), right_value: None };
    assert_eq!(bad_right.format(), "Invalid Right value");
}

#[test]
fn point_formats() {
    assert_eq!(Point::new(10, 20).format(), "(10, 20)");
    assert_eq!(Point::new(i32::MIN, i32::MAX).format(), "(-2147483648, 2147483647)");
}

#[test]
fn color_channels_and_brightness() {
    assert_eq!(Color::red().to_rgb(), "(255, 0, 0)");
    assert_eq!(Color::green().to_rgb(), "(0, 255, 0)");
    assert_eq!(Color::blue().to_rgb(), "(0, 0, 255)");
    assert_eq!(Color::rgb(100, 150, 200).to_rgb(), "(100, 150, 200)");
    assert_eq!(Color::rgb(100, 150, 200).brightness(), 150);
    assert_eq!(Color::rgb(100, 100, 100).brightness(), 100);
    assert_eq!(Color::rgb(255, 255, 255).brightness(), 255);
    assert_eq!(Color::rgb(1, 1, 0).brightness(), 0);
    assert_eq!(Color::blue().brightness(), 85);
}

#[test]
fn brightness_ignores_channel_order() {
    let b = Color::rgb(10, 20, 33).brightness();
    assert_eq!(b, 21);
    assert_eq!(Color::rgb(20, 10, 33).brightness(), b);
    assert_eq!(Color::rgb(33, 20, 10).brightness(), b);
    assert_eq!(Color::rgb(10, 33, 20).brightness(), b);
}

#[test]
fn directions_describe() {
    assert_eq!(Direction::north().describe(), "北に進む");
    assert_eq!(Direction::south().describe(), "南に進む");
    assert_eq!(Direction::east().describe(), "東に進む");
    assert_eq!(Direction::west().describe(), "西に進む");
}

#[test]
fn first_element_reports() {
    assert_eq!(first_element(vec![]), "リストは空です");
    let five = first_element(vec![1, 2, 3, 4, 5]);
    assert_eq!(five, "最初の要素: 1");
    assert!(five.contains('1'));
    assert!(!five.contains('2'));
    assert_eq!(first_element(vec![-40]), "最初の要素: -40");
}

#[test]
fn decimal_text() {
    assert_eq!(nat_to_text(0), "0");
    assert_eq!(nat_to_text(9), "9");
    assert_eq!(nat_to_text(10), "10");
    assert_eq!(nat_to_text(u32::MAX), "4294967295");
    assert_eq!(int_to_text(-1), "-1");
    assert_eq!(int_to_text(i32::MIN), "-2147483648");
    assert_eq!(int_to_text(1234), "1234");
}
