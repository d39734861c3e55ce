//! Cooperative diving: pressure warning levels and rescue drag events.

use vstd::prelude::*;

verus! {

/// Pressure warning level.
#[derive(Clone, Copy, Debug, PartialEq, Eq, Structural)]
pub enum PressureWarning {
    /// Safe depth (< 100m).
    Safe,
    /// Moderate pressure (100-300m).
    Moderate,
    /// High pressure (300-700m).
    High,
    /// Extreme pressure (> 700m).
    Extreme,
}

impl PressureWarning {
    /// The HUD color of each warning level.
    pub open spec fn spec_color_code(self) -> Seq<char> {
        match self {
            PressureWarning::Safe => "green"@,
            PressureWarning::Moderate => "yellow"@,
            PressureWarning::High => "red"@,
            PressureWarning::Extreme => "purple"@,
        }
    }

    /// Get the color code for HUD display.
    pub fn color_code(&self) -> (r: &str)
        ensures
            r@ == self.spec_color_code(),
    {
        match self {
            PressureWarning::Safe => "green",
            PressureWarning::Moderate => "yellow",
            PressureWarning::High => "red",
            PressureWarning::Extreme => "purple",
        }
    }
}

/// Rescue drag event.
#[derive(Clone, Debug, PartialEq, Eq, Structural)]
pub struct RescueDragEvent {
    /// Rescuer player ID.
    pub rescuer_id: u64,
    /// Victim player ID.
    pub victim_id: u64,
    /// Whether dragging started (true) or stopped (false).
    pub started: bool,
}

impl RescueDragEvent {
    /// Create a new rescue drag event.
    pub fn new(rescuer_id: u64, victim_id: u64, started: bool) -> (r: Self)
        ensures
            r.rescuer_id == rescuer_id,
            r.victim_id == victim_id,
            r.started == started,
    {
        Self { rescuer_id, victim_id, started }
    }
}

/// Distinct warning levels show distinct colors, so the HUD color alone tells
/// the level.
pub proof fn lemma_warning_colors_distinct(a: PressureWarning, b: PressureWarning)
    ensures
        a.spec_color_code() == b.spec_color_code() <==> a == b,
{
    reveal_strlit("green");
    reveal_strlit("yellow");
    reveal_strlit("red");
    reveal_strlit("purple");
    if a != b {
        assert(a.spec_color_code() != b.spec_color_code()) by {
            let x = a.spec_color_code();
            let y = b.spec_color_code();
            if x.len() == y.len() {
                assert(x[0] != y[0]);
            }
        }
    }
}

/// The HUD color of each pressure warning level, from green when safe to purple at
/// extreme pressure.
pub proof fn lemma_pressure_warning_table()
    ensures
        PressureWarning::Safe.spec_color_code() == "green"@,
        PressureWarning::Moderate.spec_color_code() == "yellow"@,
        PressureWarning::High.spec_color_code() == "red"@,
        PressureWarning::Extreme.spec_color_code() == "purple"@,
{
}

} // verus!
