//! A traffic light with three states.
use vstd::prelude::*;

verus! {

#[derive(Clone, Copy, Debug, PartialEq, Eq, Structural)]
pub enum TrafficLightKind {
    Red,
    Yellow,
    Green,
}

#[derive(Clone, Copy, Debug)]
pub struct TrafficLight {
    pub kind: TrafficLightKind,
}

/// What a light of the given state reads as.
pub open spec fn light_text(kind: TrafficLightKind) -> Seq<char> {
    match kind {
        TrafficLightKind::Red => "赤信号"@,
        TrafficLightKind::Yellow => "黄信号"@,
        TrafficLightKind::Green => "青信号"@,
    }
}

impl TrafficLight {
    pub fn red() -> (r: TrafficLight)
        ensures
            r.kind == TrafficLightKind::Red,
    {
        TrafficLight { kind: TrafficLightKind::Red }
    }

    pub fn yellow() -> (r: TrafficLight)
        ensures
            r.kind == TrafficLightKind::Yellow,
    {
        TrafficLight { kind: TrafficLightKind::Yellow }
    }

    pub fn green() -> (r: TrafficLight)
        ensures
            r.kind == TrafficLightKind::Green,
    {
        TrafficLight { kind: TrafficLightKind::Green }
    }

    pub fn to_string(&self) -> (r: String)
        ensures
            r@ == light_text(self.kind),
    {
        match self.kind {
            TrafficLightKind::Red => "赤信号".to_string(),
            TrafficLightKind::Yellow => "黄信号".to_string(),
            TrafficLightKind::Green => "青信号".to_string(),
        }
    }
}

/// Each state of a light reads differently, so the text tells the state.
pub proof fn lemma_light_text_identifies_state(a: TrafficLight, b: TrafficLight)
    ensures
        (light_text(a.kind) == light_text(b.kind)) <==> (a.kind == b.kind),
{
    reveal_strlit("赤信号");
    reveal_strlit("黄信号");
    reveal_strlit("青信号");
    if a.kind != b.kind {
        assert(light_text(a.kind)[1] != light_text(b.kind)[1] || light_text(a.kind)[0]
            != light_text(b.kind)[0]);
    }
}

} // verus!
