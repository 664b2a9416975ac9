//! The catalog of recognised snippets and the dispatcher that answers them.
use vstd::prelude::*;
use crate::color::{mean_of, rgb_text, Color, ColorType};
use crate::direction::{direction_text, Direction, DirectionType};
use crate::either::{either_text, Either, EitherType};
use crate::light::{light_text, TrafficLight, TrafficLightKind};
use crate::list::{first_element, first_element_text};
use crate::message::{message_text, write_text, Message, MessageType};
use crate::point::{point_text, Point};
use crate::text::{nat_text, nat_to_text};
use crate::trim::{all_white, is_white, lemma_trimmed_padding, trim_text, trimmed};

verus! {

/// A snippet of source text that the catalog recognises.
#[derive(Clone, Copy, Debug, PartialEq, Eq, Structural)]
pub enum Snippet {
    LightRed,
    LightGreen,
    LightMatch,
    MessageQuit,
    MessageMove,
    MessageWrite,
    MessageWriteCall,
    MessageChangeColor,
    DivideExact,
    DivideByZero,
    EitherLeft,
    PointLiteral,
    ColorCustom,
    ColorBlue,
    Directions,
    FirstOfFive,
    FirstOfEmpty,
}

/// The exact source text of a snippet.
pub open spec fn snippet_key(s: Snippet) -> Seq<char> {
    match s {
        Snippet::LightRed => "let light = TrafficLight::Red; light.to_string()"@,
        Snippet::LightGreen => "let light = TrafficLight::Green; light.to_string()"@,
        Snippet::LightMatch => "let light = TrafficLight::Red; match light { TrafficLight::Red => \"赤信号：停止\", TrafficLight::Yellow => \"黄信号：注意\", TrafficLight::Green => \"青信号：進行\", }"@,
        Snippet::MessageQuit => "let msg = Message::quit(); msg.process()"@,
        Snippet::MessageMove => "let msg = Message::move_to(10, 20); msg.process()"@,
        Snippet::MessageWrite => "let msg = Message::write(\"こんにちは\"); msg.process()"@,
        Snippet::MessageWriteCall => "let msg = Message::write(\"こんにちは世界\"); process_message(msg)"@,
        Snippet::MessageChangeColor => "let msg = Message::change_color(255, 0, 0); msg.process()"@,
        Snippet::DivideExact => "divide(10.0, 2.0).map_or(\"ゼロ除算エラー\".to_string(), |result| format!(\"結果: {}\", result))"@,
        Snippet::DivideByZero => "divide(10.0, 0.0).map_or(\"ゼロ除算エラー\".to_string(), |result| format!(\"結果: {}\", result))"@,
        Snippet::EitherLeft => "let x: Either<i32, &str> = Either::Left(42); format!(\"{:?}\", x)"@,
        Snippet::PointLiteral => "let p = Point { x: 10, y: 20 }; format!(\"({}, {})\", p.x, p.y)"@,
        Snippet::ColorCustom => "let color = Color::RGB(100, 150, 200); format!(\"RGB値: {:?}, 輝度: {}\", color.to_rgb(), color.brightness())"@,
        Snippet::ColorBlue => "let color = Color::Blue; format!(\"RGB値: {:?}, 輝度: {}\", color.to_rgb(), color.brightness())"@,
        Snippet::Directions => "let directions = [Direction::North, Direction::East, Direction::South, Direction::West]; let descriptions: Vec<_> = directions.iter().map(|&dir| describe_direction_correctly(dir)).collect(); format!(\"方向の説明: {:?}\", descriptions)"@,
        Snippet::FirstOfFive => "let numbers = vec![1, 2, 3, 4, 5]; let first = numbers.first(); if let Some(value) = first { format!(\"最初の要素: {}\", value) } else { \"リストは空です\".to_string() }"@,
        Snippet::FirstOfEmpty => "let numbers: Vec<i32> = vec![]; let first = numbers.first(); if let Some(value) = first { format!(\"最初の要素: {}\", value) } else { \"リストは空です\".to_string() }"@,
    }
}

/// The exact source text of a snippet.
pub fn key(s: Snippet) -> (r: &'static str)
    ensures
        r@ == snippet_key(s),
{
    match s {
        Snippet::LightRed => "let light = TrafficLight::Red; light.to_string()",
        Snippet::LightGreen => "let light = TrafficLight::Green; light.to_string()",
        Snippet::LightMatch => "let light = TrafficLight::Red; match light { TrafficLight::Red => \"赤信号：停止\", TrafficLight::Yellow => \"黄信号：注意\", TrafficLight::Green => \"青信号：進行\", }",
        Snippet::MessageQuit => "let msg = Message::quit(); msg.process()",
        Snippet::MessageMove => "let msg = Message::move_to(10, 20); msg.process()",
        Snippet::MessageWrite => "let msg = Message::write(\"こんにちは\"); msg.process()",
        Snippet::MessageWriteCall => "let msg = Message::write(\"こんにちは世界\"); process_message(msg)",
        Snippet::MessageChangeColor => "let msg = Message::change_color(255, 0, 0); msg.process()",
        Snippet::DivideExact => "divide(10.0, 2.0).map_or(\"ゼロ除算エラー\".to_string(), |result| format!(\"結果: {}\", result))",
        Snippet::DivideByZero => "divide(10.0, 0.0).map_or(\"ゼロ除算エラー\".to_string(), |result| format!(\"結果: {}\", result))",
        Snippet::EitherLeft => "let x: Either<i32, &str> = Either::Left(42); format!(\"{:?}\", x)",
        Snippet::PointLiteral => "let p = Point { x: 10, y: 20 }; format!(\"({}, {})\", p.x, p.y)",
        Snippet::ColorCustom => "let color = Color::RGB(100, 150, 200); format!(\"RGB値: {:?}, 輝度: {}\", color.to_rgb(), color.brightness())",
        Snippet::ColorBlue => "let color = Color::Blue; format!(\"RGB値: {:?}, 輝度: {}\", color.to_rgb(), color.brightness())",
        Snippet::Directions => "let directions = [Direction::North, Direction::East, Direction::South, Direction::West]; let descriptions: Vec<_> = directions.iter().map(|&dir| describe_direction_correctly(dir)).collect(); format!(\"方向の説明: {:?}\", descriptions)",
        Snippet::FirstOfFive => "let numbers = vec![1, 2, 3, 4, 5]; let first = numbers.first(); if let Some(value) = first { format!(\"最初の要素: {}\", value) } else { \"リストは空です\".to_string() }",
        Snippet::FirstOfEmpty => "let numbers: Vec<i32> = vec![]; let first = numbers.first(); if let Some(value) = first { format!(\"最初の要素: {}\", value) } else { \"リストは空です\".to_string() }",
    }
}

/// The fallback answer to a text that is no snippet of the catalog.
pub open spec fn unsupported_text() -> Seq<char> {
    "このコード例は WebAssembly ではサポートされていません。Rust のネイティブ環境でコードを試してください。"@
}

/// A color reported with its channels and its brightness.
pub open spec fn color_report(c: Color) -> Seq<char> {
    "RGB値: "@ + rgb_text(c) + ", 輝度: "@ + nat_text(mean_of(c.r, c.g, c.b))
}

/// A text between double quotes.
pub open spec fn quoted(t: Seq<char>) -> Seq<char> {
    "\""@ + t + "\""@
}

/// The four directions described in the order north, east, south, west, as a
/// bracketed list of quoted descriptions.
pub open spec fn directions_report() -> Seq<char> {
    "方向の説明: ["@ + quoted(direction_text(DirectionType::North)) + ", "@ + quoted(
        direction_text(DirectionType::East),
    ) + ", "@ + quoted(direction_text(DirectionType::South)) + ", "@ + quoted(
        direction_text(DirectionType::West),
    ) + "]"@
}

/// What running a snippet would print.
pub open spec fn snippet_output(s: Snippet) -> Seq<char> {
    match s {
        Snippet::LightRed => light_text(TrafficLightKind::Red),
        Snippet::LightGreen => light_text(TrafficLightKind::Green),
        Snippet::LightMatch => "赤信号：停止"@,
        Snippet::MessageQuit => message_text(
            Message {
                msg_type: MessageType::Quit,
                x: None,
                y: None,
                text: None,
                r: None,
                g: None,
                b: None,
            },
        ),
        Snippet::MessageMove => message_text(
            Message {
                msg_type: MessageType::Move,
                x: Some(10),
                y: Some(20),
                text: None,
                r: None,
                g: None,
                b: None,
            },
        ),
        Snippet::MessageWrite => write_text("こんにちは"@),
        Snippet::MessageWriteCall => "メッセージ: こんにちは世界"@,
        Snippet::MessageChangeColor => message_text(
            Message {
                msg_type: MessageType::ChangeColor,
                x: None,
                y: None,
                text: None,
                r: Some(255),
                g: Some(0),
                b: Some(0),
            },
        ),
        Snippet::DivideExact => "結果: 5"@,
        Snippet::DivideByZero => "ゼロ除算エラー"@,
        Snippet::EitherLeft => either_text(
            Either { either_type: EitherType::Left, left_value: Some(42), right_value: None },
        ),
        Snippet::PointLiteral => point_text(Point { x: 10, y: 20 }),
        Snippet::ColorCustom => color_report(
            Color { color_type: ColorType::Custom, r: 100, g: 150, b: 200 },
        ),
        Snippet::ColorBlue => color_report(
            Color { color_type: ColorType::Blue, r: 0, g: 0, b: 255 },
        ),
        Snippet::Directions => directions_report(),
        Snippet::FirstOfFive => first_element_text(seq![1i32, 2, 3, 4, 5]),
        Snippet::FirstOfEmpty => first_element_text(Seq::<i32>::empty()),
    }
}

/// The snippet whose source text is exactly `t`, if there is one.
pub open spec fn snippet_of(t: Seq<char>) -> Option<Snippet> {
    if exists|s: Snippet| snippet_key(s) == t {
        Some(choose|s: Snippet| snippet_key(s) == t)
    } else {
        None
    }
}

/// The dispatcher's answer: the output of the snippet that the trimmed text
/// names exactly, or the fallback answer.
pub open spec fn run_output(code: Seq<char>) -> Seq<char> {
    match snippet_of(trimmed(code)) {
        Some(s) => snippet_output(s),
        None => unsupported_text(),
    }
}

/// No two snippets share their source text; each starts and ends with a
/// character that is not whitespace.
pub proof fn lemma_keys_distinct(a: Snippet, b: Snippet)
    ensures
        snippet_key(a) == snippet_key(b) ==> a == b,
        snippet_key(a).len() > 0,
        !is_white(snippet_key(a)[0]),
        !is_white(snippet_key(a).last()),
{
    reveal_strlit("let light = TrafficLight::Red; light.to_string()");
    reveal_strlit("let light = TrafficLight::Green; light.to_string()");
    reveal_strlit("let light = TrafficLight::Red; match light { TrafficLight::Red => \"赤信号：停止\", TrafficLight::Yellow => \"黄信号：注意\", TrafficLight::Green => \"青信号：進行\", }");
    reveal_strlit("let msg = Message::quit(); msg.process()");
    reveal_strlit("let msg = Message::move_to(10, 20); msg.process()");
    reveal_strlit("let msg = Message::write(\"こんにちは\"); msg.process()");
    reveal_strlit("let msg = Message::write(\"こんにちは世界\"); process_message(msg)");
    reveal_strlit("let msg = Message::change_color(255, 0, 0); msg.process()");
    reveal_strlit("divide(10.0, 2.0).map_or(\"ゼロ除算エラー\".to_string(), |result| format!(\"結果: {}\", result))");
    reveal_strlit("divide(10.0, 0.0).map_or(\"ゼロ除算エラー\".to_string(), |result| format!(\"結果: {}\", result))");
    reveal_strlit("let x: Either<i32, &str> = Either::Left(42); format!(\"{:?}\", x)");
    reveal_strlit("let p = Point { x: 10, y: 20 }; format!(\"({}, {})\", p.x, p.y)");
    reveal_strlit("let color = Color::RGB(100, 150, 200); format!(\"RGB値: {:?}, 輝度: {}\", color.to_rgb(), color.brightness())");
    reveal_strlit("let color = Color::Blue; format!(\"RGB値: {:?}, 輝度: {}\", color.to_rgb(), color.brightness())");
    reveal_strlit("let directions = [Direction::North, Direction::East, Direction::South, Direction::West]; let descriptions: Vec<_> = directions.iter().map(|&dir| describe_direction_correctly(dir)).collect(); format!(\"方向の説明: {:?}\", descriptions)");
    reveal_strlit("let numbers = vec![1, 2, 3, 4, 5]; let first = numbers.first(); if let Some(value) = first { format!(\"最初の要素: {}\", value) } else { \"リストは空です\".to_string() }");
    reveal_strlit("let numbers: Vec<i32> = vec![]; let first = numbers.first(); if let Some(value) = first { format!(\"最初の要素: {}\", value) } else { \"リストは空です\".to_string() }");
    if snippet_key(a) == snippet_key(b) && a != b {
        assert(snippet_key(a).len() == snippet_key(b).len());
        assert(snippet_key(a)[4] == snippet_key(b)[4]);
        assert(snippet_key(a)[13] == snippet_key(b)[13]);
        assert(snippet_key(a)[19] == snippet_key(b)[19]);
    }
}

/// A text names at most one snippet, and names the one whose source text it is.
pub proof fn lemma_snippet_of_key(s: Snippet)
    ensures
        snippet_of(snippet_key(s)) == Some(s),
{
    let c = choose|x: Snippet| snippet_key(x) == snippet_key(s);
    lemma_keys_distinct(c, s);
}

/// Whitespace around a snippet's source text does not change what the
/// dispatcher answers, which is that snippet's output.
pub proof fn lemma_run_output_padding(s: Snippet, w1: Seq<char>, w2: Seq<char>)
    requires
        all_white(w1),
        all_white(w2),
    ensures
        run_output(w1 + snippet_key(s) + w2) == run_output(snippet_key(s)),
        run_output(snippet_key(s)) == snippet_output(s),
{
    lemma_keys_distinct(s, s);
    lemma_trimmed_padding(w1, snippet_key(s), w2);
    lemma_trimmed_padding(Seq::empty(), snippet_key(s), Seq::empty());
    assert(Seq::<char>::empty() + snippet_key(s) + Seq::<char>::empty() =~= snippet_key(s));
    lemma_snippet_of_key(s);
}

/// Every snippet of the catalog, in catalog order.
pub fn all_snippets() -> (v: Vec<Snippet>)
    ensures
        forall|s: Snippet| v@.contains(s),
{
    let v = vec![
        Snippet::LightRed,
        Snippet::LightGreen,
        Snippet::LightMatch,
        Snippet::MessageQuit,
        Snippet::MessageMove,
        Snippet::MessageWrite,
        Snippet::MessageWriteCall,
        Snippet::MessageChangeColor,
        Snippet::DivideExact,
        Snippet::DivideByZero,
        Snippet::EitherLeft,
        Snippet::PointLiteral,
        Snippet::ColorCustom,
        Snippet::ColorBlue,
        Snippet::Directions,
        Snippet::FirstOfFive,
        Snippet::FirstOfEmpty,
    ];
    assert forall|s: Snippet| v@.contains(s) by {
        match s {
            Snippet::LightRed => assert(v@[0] == s),
            Snippet::LightGreen => assert(v@[1] == s),
            Snippet::LightMatch => assert(v@[2] == s),
            Snippet::MessageQuit => assert(v@[3] == s),
            Snippet::MessageMove => assert(v@[4] == s),
            Snippet::MessageWrite => assert(v@[5] == s),
            Snippet::MessageWriteCall => assert(v@[6] == s),
            Snippet::MessageChangeColor => assert(v@[7] == s),
            Snippet::DivideExact => assert(v@[8] == s),
            Snippet::DivideByZero => assert(v@[9] == s),
            Snippet::EitherLeft => assert(v@[10] == s),
            Snippet::PointLiteral => assert(v@[11] == s),
            Snippet::ColorCustom => assert(v@[12] == s),
            Snippet::ColorBlue => assert(v@[13] == s),
            Snippet::Directions => assert(v@[14] == s),
            Snippet::FirstOfFive => assert(v@[15] == s),
            Snippet::FirstOfEmpty => assert(v@[16] == s),
        }
    }
    v
}

/// Finds the snippet whose source text is exactly `t`.
pub fn find_snippet(t: &str) -> (r: Option<Snippet>)
    ensures
        r == snippet_of(t@),
{
    let all = all_snippets();
    let target = t.to_string();
    let mut i: usize = 0;
    while i < all.len()
        invariant
            target@ == t@,
            forall|s: Snippet| all@.contains(s),
            forall|j: int| 0 <= j < i ==> snippet_key(#[trigger] all@[j]) != t@,
        decreases all.len() - i,
    {
        let s = all[i];
        let k = key(s).to_string();
        if k == target {
            proof {
                lemma_snippet_of_key(s);
            }
            return Some(s);
        }
        i = i + 1;
    }
    assert forall|s: Snippet| snippet_key(s) != t@ by {
        assert(all@.contains(s));
    }
    None
}

fn report_color(c: &Color) -> (out: String)
    ensures
        out@ == color_report(*c),
{
    let mut s = "RGB値: ".to_string();
    s.append(c.to_rgb().as_str());
    s.append(", 輝度: ");
    s.append(nat_to_text(c.brightness() as u32).as_str());
    s
}

fn push_quoted(s: &mut String, t: &String)
    ensures
        final(s)@ == old(s)@ + quoted(t@),
{
    s.append("\"");
    s.append(t.as_str());
    s.append("\"");
}

fn report_directions() -> (out: String)
    ensures
        out@ == directions_report(),
{
    let mut s = "方向の説明: [".to_string();
    push_quoted(&mut s, &Direction::north().describe());
    s.append(", ");
    push_quoted(&mut s, &Direction::east().describe());
    s.append(", ");
    push_quoted(&mut s, &Direction::south().describe());
    s.append(", ");
    push_quoted(&mut s, &Direction::west().describe());
    s.append("]");
    s
}

/// Produces what running a snippet would print.
pub fn evaluate(s: Snippet) -> (out: String)
    ensures
        out@ == snippet_output(s),
{
    match s {
        Snippet::LightRed => {
            let light = TrafficLight::red();
            light.to_string()
        },
        Snippet::LightGreen => {
            let light = TrafficLight::green();
            light.to_string()
        },
        Snippet::LightMatch => "赤信号：停止".to_string(),
        Snippet::MessageQuit => {
            let msg = Message::quit();
            msg.process()
        },
        Snippet::MessageMove => {
            let msg = Message::move_to(10, 20);
            msg.process()
        },
        Snippet::MessageWrite => {
            let msg = Message::write("こんにちは");
            msg.process()
        },
        Snippet::MessageWriteCall => "メッセージ: こんにちは世界".to_string(),
        Snippet::MessageChangeColor => {
            let msg = Message::change_color(255, 0, 0);
            msg.process()
        },
        Snippet::DivideExact => "結果: 5".to_string(),
        Snippet::DivideByZero => "ゼロ除算エラー".to_string(),
        Snippet::EitherLeft => {
            let either = Either::left(42);
            either.format()
        },
        Snippet::PointLiteral => {
            let point = Point::new(10, 20);
            point.format()
        },
        Snippet::ColorCustom => {
            let color = Color::rgb(100, 150, 200);
            report_color(&color)
        },
        Snippet::ColorBlue => {
            let color = Color::blue();
            report_color(&color)
        },
        Snippet::Directions => report_directions(),
        Snippet::FirstOfFive => first_element(vec![1, 2, 3, 4, 5]),
        Snippet::FirstOfEmpty => first_element(Vec::new()),
    }
}

/// Answers a piece of source text: the output of the catalog snippet that it
/// is, once leading and trailing whitespace is removed, or the fallback answer.
pub fn run_code(code: &str) -> (out: String)
    ensures
        out@ == run_output(code@),
{
    match find_snippet(trim_text(code)) {
        Some(s) => evaluate(s),
        None => "このコード例は WebAssembly ではサポートされていません。Rust のネイティブ環境でコードを試してください。".to_string(),
    }
}

} // verus!
