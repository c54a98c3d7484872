//! Step indicators: the steps of a workflow, the mark in each step's circle
//! and the connectors between them.

use vstd::prelude::*;
use crate::text::{decimal, decimal_string};

verus! {

/// Where a step stands.
#[derive(Debug, Clone, Copy, PartialEq, Eq, Structural)]
pub enum StepItemStatus {
    /// Not reached yet.
    NotVisited,
    /// The current step.
    Active,
    /// Done.
    Completed,
    /// Failed.
    Error,
}

impl Default for StepItemStatus {
    /// Not reached yet.
    fn default() -> (s: StepItemStatus)
        ensures
            s == StepItemStatus::NotVisited,
    {
        StepItemStatus::NotVisited
    }
}

/// Direction in which the steps follow each other.
#[derive(Debug, Clone, Copy, PartialEq, Eq, Structural)]
pub enum StepOrientation {
    Horizontal,
    Vertical,
}

impl Default for StepOrientation {
    /// Left to right.
    fn default() -> (o: StepOrientation)
        ensures
            o == StepOrientation::Horizontal,
    {
        StepOrientation::Horizontal
    }
}

/// The size of the step circles.
#[derive(Debug, Clone, Copy, PartialEq, Eq, Structural)]
pub enum StepIndicatorSize {
    Sm,
    Md,
    Lg,
}

impl Default for StepIndicatorSize {
    /// Medium.
    fn default() -> (s: StepIndicatorSize)
        ensures
            s == StepIndicatorSize::Md,
    {
        StepIndicatorSize::Md
    }
}

impl StepIndicatorSize {
    /// Diameter of a step circle in pixels: 24, 32 or 40.
    pub fn circle_size(&self) -> (px: u32)
        ensures
            px == match *self {
                StepIndicatorSize::Sm => 24u32,
                StepIndicatorSize::Md => 32,
                StepIndicatorSize::Lg => 40,
            },
    {
        match self {
            StepIndicatorSize::Sm => 24,
            StepIndicatorSize::Md => 32,
            StepIndicatorSize::Lg => 40,
        }
    }

    /// Whether the circles use the smallest text: only for small circles.
    pub fn font_size_small(&self) -> (r: bool)
        ensures
            r == (*self == StepIndicatorSize::Sm),
    {
        match self {
            StepIndicatorSize::Sm => true,
            _ => false,
        }
    }
}

/// One step.
pub struct StepItem {
    /// Text under or beside the circle.
    pub label: String,
    /// Where the step stands.
    pub status: StepItemStatus,
    /// Text shown in the circle in place of the step number.
    pub icon: Option<String>,
}

impl StepItem {
    /// A step not reached yet, without icon.
    pub fn new(label: &str) -> (s: StepItem)
        ensures
            s.label@ == label@,
            s.status == StepItemStatus::NotVisited,
            s.icon is None,
    {
        StepItem { label: label.to_owned(), status: StepItemStatus::NotVisited, icon: None }
    }

    /// Sets where the step stands.
    pub fn status(self, status: StepItemStatus) -> (s: StepItem)
        ensures
            s.status == status,
            s.label == self.label && s.icon == self.icon,
    {
        StepItem { status, ..self }
    }

    /// Sets the text shown in the circle.
    pub fn icon(self, icon: &str) -> (s: StepItem)
        ensures
            s.icon matches Some(i) && i@ == icon@,
            s.label == self.label && s.status == self.status,
    {
        StepItem { icon: Some(icon.to_owned()), ..self }
    }
}

/// The mark in the circle of the step at position `i` (from 0): a check mark
/// when completed, a cross on error, else the step's icon, else its number
/// counted from 1.
pub open spec fn step_mark_spec(step: StepItem, i: nat) -> Seq<char> {
    if step.status == StepItemStatus::Completed {
        "\u{2713}"@
    } else if step.status == StepItemStatus::Error {
        "\u{2717}"@
    } else if step.icon is Some {
        step.icon->0@
    } else {
        decimal(i + 1)
    }
}

/// A step indicator.
pub struct StepIndicator {
    /// Identifier of the indicator.
    pub id: String,
    /// The steps, in order.
    pub steps: Vec<StepItem>,
    /// Direction of the steps.
    pub orientation: StepOrientation,
    /// Circle size.
    pub size: StepIndicatorSize,
}

/// The look of the connector after a step.
#[derive(Debug, Clone, Copy, PartialEq, Eq, Structural)]
pub enum Connector {
    /// The step is done: the connector takes the completed color.
    Completed,
    /// The ordinary connector color.
    Plain,
}

impl StepIndicator {
    /// A horizontal, medium indicator of the given steps.
    pub fn new(id: &str, steps: Vec<StepItem>) -> (s: StepIndicator)
        ensures
            s.id@ == id@,
            s.steps == steps,
            s.orientation == StepOrientation::Horizontal,
            s.size == StepIndicatorSize::Md,
    {
        StepIndicator {
            id: id.to_owned(),
            steps,
            orientation: StepOrientation::Horizontal,
            size: StepIndicatorSize::Md,
        }
    }

    /// Sets the direction.
    pub fn orientation(self, orientation: StepOrientation) -> (s: StepIndicator)
        ensures
            s.orientation == orientation,
            s.id == self.id && s.steps == self.steps && s.size == self.size,
    {
        StepIndicator { orientation, ..self }
    }

    /// Sets the circle size.
    pub fn size(self, size: StepIndicatorSize) -> (s: StepIndicator)
        ensures
            s.size == size,
            s.id == self.id && s.steps == self.steps && s.orientation == self.orientation,
    {
        StepIndicator { size, ..self }
    }

    /// The mark in the circle of step `i`.
    pub fn step_mark(&self, i: usize) -> (m: String)
        requires
            i < self.steps@.len(),
        ensures
            m@ == step_mark_spec(self.steps@[i as int], i as nat),
    {
        let n = self.steps.len();
        let step = &self.steps[i];
        match step.status {
            StepItemStatus::Completed => "\u{2713}".to_owned(),
            StepItemStatus::Error => "\u{2717}".to_owned(),
            _ => match &step.icon {
                Some(icon) => icon.clone(),
                None => decimal_string((i + 1) as u64),
            },
        }
    }

    /// The connector drawn after step `i`: none after the last step, the
    /// completed color after a completed step.
    pub fn connector_after(&self, i: usize) -> (c: Option<Connector>)
        requires
            i < self.steps@.len(),
        ensures
            i + 1 == self.steps@.len() ==> c is None,
            i + 1 < self.steps@.len() ==> c == Some(
                if self.steps@[i as int].status == StepItemStatus::Completed {
                    Connector::Completed
                } else {
                    Connector::Plain
                },
            ),
    {
        let n = self.steps.len();
        if i == n - 1 {
            None
        } else if self.steps[i].status == StepItemStatus::Completed {
            Some(Connector::Completed)
        } else {
            Some(Connector::Plain)
        }
    }

    /// Whether the circle of step `i` has a border: only for steps not
    /// reached yet.
    pub fn circle_bordered(&self, i: usize) -> (r: bool)
        requires
            i < self.steps@.len(),
        ensures
            r == (self.steps@[i as int].status == StepItemStatus::NotVisited),
    {
        self.steps[i].status == StepItemStatus::NotVisited
    }
}

} // verus!
