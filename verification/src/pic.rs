//! The chained pair of interrupt controllers, as a model: which vectors the
//! pair handles, which lines it delivers, and what an acknowledgment undoes.
//!
//! The model keeps one fact per line that the hardware keeps in its
//! in-service registers: a line that was delivered is in service until its
//! vector is acknowledged, and a line in service is not delivered again.

use vstd::prelude::*;

verus! {

/// Number of interrupt lines of the pair.
pub const LINES: u8 = 16;

/// Number of lines of one controller.
pub const LINES_PER_CONTROLLER: u8 = 8;

/// The line of the primary controller through which the secondary
/// controller's lines arrive.
pub const CASCADE_LINE: u8 = 2;

/// Lowest vector that the processor does not reserve for itself.
pub const FIRST_FREE_VECTOR: u8 = 32;

/// Highest vector offset that leaves room for a controller's eight lines.
pub const LAST_OFFSET: u8 = 248;

/// Whether two vector offsets can be given to the pair: both controllers'
/// vectors lie above the processor's own, below the end of the vector table,
/// and apart from each other.
pub open spec fn valid_offsets(offset1: u8, offset2: u8) -> bool {
    &&& FIRST_FREE_VECTOR <= offset1 <= LAST_OFFSET
    &&& FIRST_FREE_VECTOR <= offset2 <= LAST_OFFSET
    &&& (offset1 + LINES_PER_CONTROLLER <= offset2 || offset2 + LINES_PER_CONTROLLER <= offset1)
}

/// Whether bit `line` of a mask register is set, that is, whether the line is
/// disabled.
pub open spec fn mask_bit(mask: u8, line: u8) -> bool {
    (mask >> line) & 1 != 0
}

/// The pair as the contracts see it.
pub struct Controllers {
    pub offset1: u8,
    pub offset2: u8,
    pub mask1: u8,
    pub mask2: u8,
    /// For each of the sixteen lines, whether it is in service.
    pub in_service: Seq<bool>,
}

impl Controllers {
    /// The offsets can be given to the pair, and there is one in-service
    /// fact for each of the sixteen lines.
    pub open spec fn wf(self) -> bool {
        &&& valid_offsets(self.offset1, self.offset2)
        &&& self.in_service.len() == LINES
    }

    /// Whether the primary controller handles `vector`.
    pub open spec fn primary_handles(self, vector: u8) -> bool {
        self.offset1 <= vector < self.offset1 + LINES_PER_CONTROLLER
    }

    /// Whether the secondary controller handles `vector`.
    pub open spec fn secondary_handles(self, vector: u8) -> bool {
        self.offset2 <= vector < self.offset2 + LINES_PER_CONTROLLER
    }

    /// Whether either controller handles `vector`.
    pub open spec fn handles(self, vector: u8) -> bool {
        self.primary_handles(vector) || self.secondary_handles(vector)
    }

    /// The vector on which `line` arrives.
    pub open spec fn vector_of(self, line: u8) -> u8 {
        if line < LINES_PER_CONTROLLER {
            (self.offset1 + line) as u8
        } else {
            (self.offset2 + (line - LINES_PER_CONTROLLER)) as u8
        }
    }

    /// The line that arrives on `vector`, for a vector that the pair handles.
    pub open spec fn line_of(self, vector: u8) -> u8 {
        if self.primary_handles(vector) {
            (vector - self.offset1) as u8
        } else {
            (vector - self.offset2 + LINES_PER_CONTROLLER) as u8
        }
    }

    /// Whether `line` is disabled by its controller's mask register.
    pub open spec fn masked(self, line: u8) -> bool {
        if line < LINES_PER_CONTROLLER {
            mask_bit(self.mask1, line)
        } else {
            mask_bit(self.mask2, (line - LINES_PER_CONTROLLER) as u8)
        }
    }

    /// Whether a request on `line` reaches the processor: the line exists, is
    /// not the cascade itself, is enabled and not in service, and for a line
    /// of the secondary controller the same holds of the cascade.
    pub open spec fn deliverable(self, line: u8) -> bool {
        &&& line < LINES
        &&& line != CASCADE_LINE
        &&& !self.masked(line)
        &&& !self.in_service[line as int]
        &&& line >= LINES_PER_CONTROLLER ==> !self.masked(CASCADE_LINE)
            && !self.in_service[CASCADE_LINE as int]
    }

    /// The pair after `line` was delivered: the line is in service, and with
    /// a line of the secondary controller the cascade.
    pub open spec fn after_delivery(self, line: u8) -> Controllers {
        let marked = self.in_service.update(line as int, true);
        Controllers {
            in_service: if line >= LINES_PER_CONTROLLER {
                marked.update(CASCADE_LINE as int, true)
            } else {
                marked
            },
            ..self
        }
    }

    /// The pair after `vector` was acknowledged: its line is out of service,
    /// and with a line of the secondary controller the cascade. Acknowledging
    /// a vector that the pair does not handle changes nothing.
    pub open spec fn after_end_of_interrupt(self, vector: u8) -> Controllers {
        if self.primary_handles(vector) {
            Controllers {
                in_service: self.in_service.update(self.line_of(vector) as int, false),
                ..self
            }
        } else if self.secondary_handles(vector) {
            Controllers {
                in_service: self.in_service.update(self.line_of(vector) as int, false).update(
                    CASCADE_LINE as int,
                    false,
                ),
                ..self
            }
        } else {
            self
        }
    }
}

/// A pair of controllers that behaves as the model says: a stand-in for the
/// hardware wherever the handlers' protocol is to be exercised without it.
pub struct ControllerPair {
    offset1: u8,
    offset2: u8,
    mask1: u8,
    mask2: u8,
    in_service: [bool; 16],
}

impl View for ControllerPair {
    type V = Controllers;

    closed spec fn view(&self) -> Controllers {
        Controllers {
            offset1: self.offset1,
            offset2: self.offset2,
            mask1: self.mask1,
            mask2: self.mask2,
            in_service: self.in_service@,
        }
    }
}

impl ControllerPair {
    /// Holds of every pair: the offsets are valid.
    #[verifier::type_invariant]
    pub open spec fn wf(self) -> bool {
        self@.wf()
    }

    /// The pair with the given vector offsets, every line disabled and none
    /// in service. There is none for offsets that cannot be given to it.
    pub fn new(offset1: u8, offset2: u8) -> (pics: Option<ControllerPair>)
        ensures
            pics is Some <==> valid_offsets(offset1, offset2),
            pics matches Some(p) ==> p@ == (Controllers {
                offset1,
                offset2,
                mask1: 0xFF,
                mask2: 0xFF,
                in_service: Seq::new(16, |i: int| false),
            }),
    {
        if offset1 < FIRST_FREE_VECTOR || offset1 > LAST_OFFSET {
            return None;
        }
        if offset2 < FIRST_FREE_VECTOR || offset2 > LAST_OFFSET {
            return None;
        }
        let end1: u16 = offset1 as u16 + LINES_PER_CONTROLLER as u16;
        let end2: u16 = offset2 as u16 + LINES_PER_CONTROLLER as u16;
        if !(end1 <= offset2 as u16 || end2 <= offset1 as u16) {
            return None;
        }
        let pics = ControllerPair {
            offset1,
            offset2,
            mask1: 0xFF,
            mask2: 0xFF,
            in_service: [false; 16],
        };
        assert(pics@.in_service =~= Seq::new(16, |i: int| false));
        Some(pics)
    }

    /// Runs the initialisation sequence: no line is in service any more, and
    /// the masks are as they were.
    pub fn initialize(&mut self)
        ensures
            final(self)@ == (Controllers {
                in_service: Seq::new(16, |i: int| false),
                ..old(self)@
            }),
    {
        proof {
            use_type_invariant(&*self);
        }
        self.in_service = [false; 16];
        assert(self@.in_service =~= Seq::new(16, |i: int| false));
    }

    /// Writes both mask registers; a set bit disables its line.
    pub fn write_masks(&mut self, mask1: u8, mask2: u8)
        ensures
            final(self)@ == (Controllers { mask1, mask2, ..old(self)@ }),
    {
        proof {
            use_type_invariant(&*self);
        }
        self.mask1 = mask1;
        self.mask2 = mask2;
    }

    /// Reads both mask registers.
    pub fn read_masks(&self) -> (masks: [u8; 2])
        ensures
            masks[0] == self@.mask1,
            masks[1] == self@.mask2,
    {
        [self.mask1, self.mask2]
    }

    /// Whether the pair handles `vector`.
    pub fn handles_interrupt(&self, vector: u8) -> (handled: bool)
        ensures
            handled == self@.handles(vector),
    {
        proof {
            use_type_invariant(self);
        }
        (self.offset1 <= vector && vector - self.offset1 < LINES_PER_CONTROLLER) || (self.offset2
            <= vector && vector - self.offset2 < LINES_PER_CONTROLLER)
    }

    /// Whether `line` is disabled by its controller's mask register.
    pub fn is_masked(&self, line: u8) -> (masked: bool)
        requires
            line < LINES,
        ensures
            masked == self@.masked(line),
    {
        if line < LINES_PER_CONTROLLER {
            (self.mask1 >> line) & 1 != 0
        } else {
            (self.mask2 >> (line - LINES_PER_CONTROLLER)) & 1 != 0
        }
    }

    /// A device requests an interrupt on `line`. Where the request reaches
    /// the processor the line goes into service and the vector is returned;
    /// otherwise nothing changes.
    pub fn raise(&mut self, line: u8) -> (vector: Option<u8>)
        ensures
            old(self)@.deliverable(line) ==> vector == Some(old(self)@.vector_of(line))
                && final(self)@ == old(self)@.after_delivery(line),
            !old(self)@.deliverable(line) ==> vector is None && final(self)@ == old(self)@,
    {
        proof {
            use_type_invariant(&*self);
        }
        if line >= LINES || line == CASCADE_LINE {
            return None;
        }
        if self.is_masked(line) || self.in_service[line as usize] {
            return None;
        }
        if line >= LINES_PER_CONTROLLER {
            if self.is_masked(CASCADE_LINE) || self.in_service[CASCADE_LINE as usize] {
                return None;
            }
            self.in_service[line as usize] = true;
            self.in_service[CASCADE_LINE as usize] = true;
            Some(self.offset2 + (line - LINES_PER_CONTROLLER))
        } else {
            self.in_service[line as usize] = true;
            Some(self.offset1 + line)
        }
    }

    /// The handler of `vector` is done. A vector of the secondary controller
    /// is acknowledged to both controllers, a vector of the primary one to
    /// the primary alone, any other vector to neither.
    pub fn notify_end_of_interrupt(&mut self, vector: u8)
        ensures
            final(self)@ == old(self)@.after_end_of_interrupt(vector),
    {
        proof {
            use_type_invariant(&*self);
        }
        if self.offset1 <= vector && vector - self.offset1 < LINES_PER_CONTROLLER {
            let line: u8 = vector - self.offset1;
            self.in_service[line as usize] = false;
        } else if self.offset2 <= vector && vector - self.offset2 < LINES_PER_CONTROLLER {
            let line: u8 = vector - self.offset2 + LINES_PER_CONTROLLER;
            self.in_service[line as usize] = false;
            self.in_service[CASCADE_LINE as usize] = false;
        }
    }
}

/// A line that was delivered and not acknowledged is not delivered again,
/// whatever is delivered or acknowledged on other vectors meanwhile.
pub proof fn unacknowledged_line_stays_silent(pair: Controllers, line: u8, other: u8)
    requires
        pair.wf(),
        pair.deliverable(line),
        other < LINES,
        other != line,
    ensures
        !pair.after_delivery(line).deliverable(line),
        !pair.after_delivery(line).after_delivery(other).deliverable(line),
        !pair.after_delivery(line).after_end_of_interrupt(pair.vector_of(other)).deliverable(
            line,
        ),
{
    let serviced = pair.after_delivery(line);
    assert(serviced.in_service[line as int]);
    assert(serviced.after_delivery(other).in_service[line as int]);
    let v = pair.vector_of(other);
    if serviced.primary_handles(v) {
        assert(serviced.line_of(v) == other);
    } else {
        assert(serviced.secondary_handles(v));
        assert(serviced.line_of(v) == other);
        if line < LINES_PER_CONTROLLER {
            assert(serviced.after_end_of_interrupt(v).in_service[line as int]);
        } else {
            assert(!serviced.after_end_of_interrupt(v).in_service[CASCADE_LINE as int]);
            assert(serviced.after_end_of_interrupt(v).in_service[line as int]);
        }
    }
}

/// Acknowledging a delivered line's vector once puts the pair back where it
/// was before the delivery, so the line is delivered again.
pub proof fn acknowledged_line_is_delivered_again(pair: Controllers, line: u8)
    requires
        pair.wf(),
        pair.deliverable(line),
    ensures
        pair.after_delivery(line).after_end_of_interrupt(pair.vector_of(line)) == pair,
        pair.after_delivery(line).after_end_of_interrupt(pair.vector_of(line)).deliverable(line),
{
    let serviced = pair.after_delivery(line);
    let v = pair.vector_of(line);
    let back = serviced.after_end_of_interrupt(v);
    if line < LINES_PER_CONTROLLER {
        assert(serviced.primary_handles(v));
    } else {
        assert(!serviced.primary_handles(v));
        assert(serviced.secondary_handles(v));
    }
    assert(serviced.line_of(v) == line);
    assert(back.in_service =~= pair.in_service);
}

/// A line of the secondary controller stays silent while only the secondary
/// controller's part of the acknowledgment is made: the cascade must be
/// acknowledged as well.
pub proof fn secondary_lines_need_the_cascade(pair: Controllers, line: u8)
    requires
        pair.wf(),
        pair.deliverable(line),
        line >= LINES_PER_CONTROLLER,
    ensures
        !(Controllers {
            in_service: pair.after_delivery(line).in_service.update(line as int, false),
            ..pair
        }).deliverable(line),
{
}

/// With the masks written at boot only the timer's line is enabled.
pub proof fn boot_masks_enable_the_timer_alone(pair: Controllers, line: u8)
    requires
        pair.mask1 == 0xFE,
        pair.mask2 == 0xFF,
        line < LINES,
    ensures
        pair.masked(line) <==> line != 0,
{
    if line < 8 {
        assert(((0xFEu8 >> line) & 1 != 0) <==> line != 0) by (bit_vector)
            requires
                line < 8,
        ;
    } else {
        let l = (line - 8) as u8;
        assert((0xFFu8 >> l) & 1 != 0) by (bit_vector)
            requires
                l < 8,
        ;
    }
}

} // verus!
