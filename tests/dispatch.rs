use adt_playground::catalog::{all_snippets, evaluate, find_snippet, key, run_code, Snippet};
use adt_playground::trim::trim_text;

const UNSUPPORTED: &str = "このコード例は WebAssembly ではサポートされていません。Rust のネイティブ環境でコードを試してください。";

#[test]
fn traffic_light_snippets() {
    assert_eq!(run_code("let light = TrafficLight::Red; light.to_string()"), "赤信号");
    assert_eq!(run_code("let light = TrafficLight::Green; light.to_string()"), "青信号");
    assert_eq!(
        run_code("let light = TrafficLight::Red; match light { TrafficLight::Red => \"赤信号：停止\", TrafficLight::Yellow => \"黄信号：注意\", TrafficLight::Green => \"青信号：進行\", }"),
        "赤信号：停止"
    );
}

#[test]
fn surrounding_whitespace_is_ignored() {
    assert_eq!(run_code("  let light = TrafficLight::Red; light.to_string()  "), "赤信号");
    assert_eq!(run_code("\n\t let light = TrafficLight::Red; light.to_string()\r\n"), "赤信号");
    assert_eq!(run_code("\u{3000}let msg = Message::quit(); msg.process()\u{a0}"), "終了します");
}

#[test]
fn inner_whitespace_matters() {
    assert_eq!(run_code("let light=TrafficLight::Red;light.to_string()"), UNSUPPORTED);
    assert_eq!(run_code("let light = TrafficLight::Red;  light.to_string()"), UNSUPPORTED);
}

#[test]
fn unknown_text_gets_fallback() {
    assert_eq!(run_code("not a real snippet"), UNSUPPORTED);
    assert_eq!(run_code(""), UNSUPPORTED);
    assert_eq!(run_code("   "), UNSUPPORTED);
}

#[test]
fn repeated_calls_agree() {
    for code in ["let msg = Message::quit(); msg.process()", "nothing", "  "] {
        assert_eq!(run_code(code), run_code(code));
    }
}

#[test]
fn message_snippets() {
    assert_eq!(run_code("let msg = Message::quit(); msg.process()"), "終了します");
    assert_eq!(
        run_code("let msg = Message::move_to(10, 20); msg.process()"),
        "位置 (10, 20) に移動します"
    );
    assert_eq!(
        run_code("let msg = Message::write(\"こんにちは\"); msg.process()"),
        "メッセージ: こんにちは"
    );
    assert_eq!(
        run_code("let msg = Message::write(\"こんにちは世界\"); process_message(msg)"),
        "メッセージ: こんにちは世界"
    );
    assert_eq!(
        run_code("let msg = Message::change_color(255, 0, 0); msg.process()"),
        "色を (255, 0, 0) に変更します"
    );
}

#[test]
fn divide_snippets() {
    assert_eq!(
        run_code("divide(10.0, 2.0).map_or(\"ゼロ除算エラー\".to_string(), |result| format!(\"結果: {}\", result))"),
        format!("結果: {}", 10.0f64 / 2.0)
    );
    assert_eq!(
        run_code("divide(10.0, 0.0).map_or(\"ゼロ除算エラー\".to_string(), |result| format!(\"結果: {}\", result))"),
        "ゼロ除算エラー"
    );
}

#[test]
fn either_point_color_snippets() {
    assert_eq!(
        run_code("let x: Either<i32, &str> = Either::Left(42); format!(\"{:?}\", x)"),
        "Left(42)"
    );
    assert_eq!(
        run_code("let p = Point { x: 10, y: 20 }; format!(\"({}, {})\", p.x, p.y)"),
        "(10, 20)"
    );
    assert_eq!(
        run_code("let color = Color::RGB(100, 150, 200); format!(\"RGB値: {:?}, 輝度: {}\", color.to_rgb(), color.brightness())"),
        "RGB値: (100, 150, 200), 輝度: 150"
    );
    assert_eq!(
        run_code("let color = Color::Blue; format!(\"RGB値: {:?}, 輝度: {}\", color.to_rgb(), color.brightness())"),
        "RGB値: (0, 0, 255), 輝度: 85"
    );
}

#[test]
fn direction_snippet() {
    let expected = format!(
        "方向の説明: {:?}",
        vec!["北に進む", "東に進む", "南に進む", "西に進む"]
    );
    assert_eq!(
        run_code("let directions = [Direction::North, Direction::East, Direction::South, Direction::West]; let descriptions: Vec<_> = directions.iter().map(|&dir| describe_direction_correctly(dir)).collect(); format!(\"方向の説明: {:?}\", descriptions)"),
        expected
    );
}

#[test]
fn first_element_snippets() {
    assert_eq!(
        run_code("let numbers = vec![1, 2, 3, 4, 5]; let first = numbers.first(); if let Some(value) = first { format!(\"最初の要素: {}\", value) } else { \"リストは空です\".to_string() }"),
        "最初の要素: 1"
    );
    assert_eq!(
        run_code("let numbers: Vec<i32> = vec![]; let first = numbers.first(); if let Some(value) = first { format!(\"最初の要素: {}\", value) } else { \"リストは空です\".to_string() }"),
        "リストは空です"
    );
}

#[test]
fn catalog_keys_find_their_snippet() {
    let all = all_snippets();
    assert_eq!(all.len(), 17);
    for s in all {
        assert_eq!(find_snippet(key(s)), Some(s));
        assert_eq!(run_code(key(s)), evaluate(s));
    }
    assert_eq!(find_snippet("let light = TrafficLight::Yellow; light.to_string()"), None);
    assert_eq!(evaluate(Snippet::FirstOfEmpty), "リストは空です");
}

#[test]
fn trimming() {
    assert_eq!(trim_text("  ab c \t"), "ab c");
    assert_eq!(trim_text("\u{2003}x\u{205f}"), "x");
    assert_eq!(trim_text(" \n "), "");
    assert_eq!(trim_text("x"), "x");
    assert_eq!(trim_text(" 一 二 "), "一 二");
}
