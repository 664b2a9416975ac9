//! A message with four kinds, each carrying its own payload.
use vstd::prelude::*;
use crate::text::{int_text, int_to_text};

verus! {

#[derive(Clone, Copy, Debug, PartialEq, Eq, Structural)]
pub enum MessageType {
    Quit,
    Move,
    Write,
    ChangeColor,
}

/// A message: its kind, and the payload fields of every kind, of which only
/// those of its own kind are present when it is well formed.
pub struct Message {
    pub msg_type: MessageType,
    pub x: Option<i32>,
    pub y: Option<i32>,
    pub text: Option<String>,
    pub r: Option<i32>,
    pub g: Option<i32>,
    pub b: Option<i32>,
}

impl Message {
    /// The payload fields present are exactly those of the message's kind.
    pub open spec fn wf(&self) -> bool {
        &&& (self.x is Some && self.y is Some) <==> self.msg_type == MessageType::Move
        &&& self.x is Some <==> self.y is Some
        &&& self.text is Some <==> self.msg_type == MessageType::Write
        &&& (self.r is Some && self.g is Some && self.b is Some) <==> self.msg_type
            == MessageType::ChangeColor
        &&& self.r is Some <==> self.g is Some
        &&& self.g is Some <==> self.b is Some
    }
}

/// A written text as processing announces it.
pub open spec fn write_text(t: Seq<char>) -> Seq<char> {
    "メッセージ: "@ + t
}

/// What processing a message yields; a kind whose payload is missing yields
/// a fixed notice of its own.
pub open spec fn message_text(m: Message) -> Seq<char> {
    match m.msg_type {
        MessageType::Quit => "終了します"@,
        MessageType::Move => if m.x is Some && m.y is Some {
            "位置 ("@ + int_text(m.x->0 as int) + ", "@ + int_text(m.y->0 as int) + ") に移動します"@
        } else {
            "無効な移動メッセージ"@
        },
        MessageType::Write => match m.text {
            Some(t) => write_text(t@),
            None => "空のメッセージ"@,
        },
        MessageType::ChangeColor => if m.r is Some && m.g is Some && m.b is Some {
            "色を ("@ + int_text(m.r->0 as int) + ", "@ + int_text(m.g->0 as int) + ", "@
                + int_text(m.b->0 as int) + ") に変更します"@
        } else {
            "無効な色変更メッセージ"@
        },
    }
}

impl Message {
    pub fn quit() -> (m: Message)
        ensures
            m.wf(),
            m.msg_type == MessageType::Quit,
    {
        Message {
            msg_type: MessageType::Quit,
            x: None,
            y: None,
            text: None,
            r: None,
            g: None,
            b: None,
        }
    }

    pub fn move_to(x: i32, y: i32) -> (m: Message)
        ensures
            m.wf(),
            m.msg_type == MessageType::Move,
            m.x == Some(x),
            m.y == Some(y),
    {
        Message {
            msg_type: MessageType::Move,
            x: Some(x),
            y: Some(y),
            text: None,
            r: None,
            g: None,
            b: None,
        }
    }

    pub fn write(text: &str) -> (m: Message)
        ensures
            m.wf(),
            m.msg_type == MessageType::Write,
            m.text is Some && m.text->0@ == text@,
    {
        Message {
            msg_type: MessageType::Write,
            x: None,
            y: None,
            text: Some(text.to_string()),
            r: None,
            g: None,
            b: None,
        }
    }

    pub fn change_color(r: i32, g: i32, b: i32) -> (m: Message)
        ensures
            m.wf(),
            m.msg_type == MessageType::ChangeColor,
            m.r == Some(r),
            m.g == Some(g),
            m.b == Some(b),
    {
        Message {
            msg_type: MessageType::ChangeColor,
            x: None,
            y: None,
            text: None,
            r: Some(r),
            g: Some(g),
            b: Some(b),
        }
    }

    pub fn process(&self) -> (out: String)
        ensures
            out@ == message_text(*self),
    {
        match self.msg_type {
            MessageType::Quit => "終了します".to_string(),
            MessageType::Move => {
                match (self.x, self.y) {
                    (Some(x), Some(y)) => {
                        let mut s = "位置 (".to_string();
                        s.append(int_to_text(x).as_str());
                        s.append(", ");
                        s.append(int_to_text(y).as_str());
                        s.append(") に移動します");
                        s
                    },
                    _ => "無効な移動メッセージ".to_string(),
                }
            },
            MessageType::Write => {
                match &self.text {
                    Some(t) => {
                        let mut s = "メッセージ: ".to_string();
                        s.append(t.as_str());
                        s
                    },
                    None => "空のメッセージ".to_string(),
                }
            },
            MessageType::ChangeColor => {
                match (self.r, self.g, self.b) {
                    (Some(r), Some(g), Some(b)) => {
                        let mut s = "色を (".to_string();
                        s.append(int_to_text(r).as_str());
                        s.append(", ");
                        s.append(int_to_text(g).as_str());
                        s.append(", ");
                        s.append(int_to_text(b).as_str());
                        s.append(") に変更します");
                        s
                    },
                    _ => "無効な色変更メッセージ".to_string(),
                }
            },
        }
    }
}

} // verus!
