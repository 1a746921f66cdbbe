//! The line registry: a shared cache from pin number to acquired hardware
//! line. Acquisition is lazy, idempotent and single-creation: the first
//! session to ask for a pin creates its line, every later one receives the
//! same shared handle, and a line is never released or re-requested for the
//! process's remaining lifetime. `acquire` hands the handle out so that a
//! caller who guards the registry with a lock can release it before any
//! hardware work: the get/set calls (`read_line`, `write_line`) need only
//! the handle, never the registry.

use vstd::prelude::*;

use std::collections::HashMap;
use std::sync::Arc;

use crate::GpioError;

verus! {

broadcast use vstd::std_specs::hash::group_hash_axioms;

#[verifier::external_type_specification]
#[verifier::external_body]
pub struct ExChip(gpio_cdev::Chip);

#[verifier::external_type_specification]
#[verifier::external_body]
pub struct ExLine(gpio_cdev::Line);

#[verifier::external_type_specification]
#[verifier::external_body]
pub struct ExLineHandle(gpio_cdev::LineHandle);

#[verifier::external_type_specification]
#[verifier::external_body]
pub struct ExCdevError(gpio_cdev::errors::Error);

/// Relies on std's Arc::clone: a new reference to the same allocation, so
/// the very same line handle.
#[verifier::external_body]
fn share_line(line: &Arc<gpio_cdev::LineHandle>) -> (r: Arc<gpio_cdev::LineHandle>)
    ensures
        r == *line,
{
    Arc::clone(line)
}

/// Relies on gpio_cdev::Chip::new: opens the controller device at
/// `/dev/<name>`; fails when it cannot be opened.
#[verifier::external_body]
fn open_chip_device(name: &str) -> Result<gpio_cdev::Chip, gpio_cdev::errors::Error> {
    gpio_cdev::Chip::new(format!("/dev/{}", name))
}

/// Relies on gpio_cdev::Chip::get_line: looks up the line at offset `pin` on
/// the opened controller; fails on an invalid offset.
#[verifier::external_body]
fn chip_get_line(
    chip: &mut gpio_cdev::Chip,
    pin: u32,
) -> Result<gpio_cdev::Line, gpio_cdev::errors::Error> {
    chip.get_line(pin)
}

/// Relies on gpio_cdev::Line::request: claims the line for combined input
/// and output under the given consumer label; fails when the kernel refuses
/// the claim (for one, when the line is already in use).
#[verifier::external_body]
fn request_line(
    line: &gpio_cdev::Line,
    consumer: &str,
) -> Result<gpio_cdev::LineHandle, gpio_cdev::errors::Error> {
    line.request(
        gpio_cdev::LineRequestFlags::INPUT | gpio_cdev::LineRequestFlags::OUTPUT,
        0,
        consumer,
    )
}

/// Relies on gpio_cdev::LineHandle::get_value: reads the line's current
/// level; the outcome depends on the hardware alone, so nothing is promised
/// of it.
#[verifier::external_body]
fn line_get_value(h: &gpio_cdev::LineHandle) -> Result<u8, gpio_cdev::errors::Error> {
    h.get_value()
}

/// Relies on gpio_cdev::LineHandle::set_value: asks the kernel to drive the
/// line to the given level; whether that sticks depends on the hardware.
#[verifier::external_body]
fn line_set_value(h: &gpio_cdev::LineHandle, value: u8) -> Result<(), gpio_cdev::errors::Error> {
    h.set_value(value)
}

/// How a raw line level reads as a sample: nonzero is `true`.
pub fn level_is_high(level: u8) -> (r: bool)
    ensures
        r == (level != 0),
{
    level != 0
}

/// How a boolean value drives a line: 1 for `true`, 0 for `false`.
pub fn level_of(value: bool) -> (r: u8)
    ensures
        r == (if value {
            1u8
        } else {
            0u8
        }),
{
    if value {
        1
    } else {
        0
    }
}

/// Read one sample through an acquired line: the hardware's level, nonzero
/// reading as `true`. The level itself is the hardware's to choose; a failed
/// read is the hardware-IO error.
pub fn read_line(line: &Arc<gpio_cdev::LineHandle>) -> (r: Result<bool, GpioError>)
    ensures
        r matches Err(e) ==> e == GpioError::HardwareIo,
{
    match line_get_value(&*line) {
        Ok(level) => Ok(level_is_high(level)),
        Err(_) => Err(GpioError::HardwareIo),
    }
}

/// Drive an acquired line to `value` (1 for true, 0 for false); a failed
/// set is the hardware-IO error.
pub fn write_line(line: &Arc<gpio_cdev::LineHandle>, value: bool) -> (r: Result<(), GpioError>)
    ensures
        r matches Err(e) ==> e == GpioError::HardwareIo,
{
    match line_set_value(&*line, level_of(value)) {
        Ok(_) => Ok(()),
        Err(_) => Err(GpioError::HardwareIo),
    }
}

/// The shared pin-to-line cache, together with the one controller handle
/// that issues lines. Its model is the map from pin number to the acquired,
/// shared line handle.
pub struct LineRegistry {
    chip: gpio_cdev::Chip,
    lines: HashMap<u32, Arc<gpio_cdev::LineHandle>>,
}

impl View for LineRegistry {
    type V = Map<u32, Arc<gpio_cdev::LineHandle>>;

    closed spec fn view(&self) -> Map<u32, Arc<gpio_cdev::LineHandle>> {
        self.lines@
    }
}

impl LineRegistry {
    /// A registry over an already opened controller, with no line acquired
    /// yet.
    pub fn new(chip: gpio_cdev::Chip) -> (r: LineRegistry)
        ensures
            r@ == Map::<u32, Arc<gpio_cdev::LineHandle>>::empty(),
    {
        LineRegistry { chip, lines: HashMap::new() }
    }

    /// Open the controller device `/dev/<name>` and start with an empty
    /// cache; a refused device is the fatal startup failure.
    pub fn open(name: &str) -> (r: Result<LineRegistry, GpioError>)
        ensures
            r matches Ok(reg) ==> reg@ == Map::<u32, Arc<gpio_cdev::LineHandle>>::empty(),
            r matches Err(e) ==> e == GpioError::StartupFailure,
    {
        match open_chip_device(name) {
            Ok(chip) => Ok(LineRegistry::new(chip)),
            Err(_) => Err(GpioError::StartupFailure),
        }
    }

    /// Get-or-create the line for `pin` and hand out its shared handle.
    /// Idempotent and single-creation: a pin already in the cache succeeds
    /// with the cache untouched and yields the very handle cached, so every
    /// caller for one pin sees the same line; a failed acquisition leaves
    /// the registry exactly as it was. The handle is free of the registry:
    /// a caller who locks the registry can release it before touching the
    /// hardware.
    pub fn acquire(&mut self, pin: u32) -> (r: Result<Arc<gpio_cdev::LineHandle>, GpioError>)
        ensures
            old(self)@.contains_key(pin) ==> r is Ok && final(self)@ == old(self)@,
            r matches Ok(h) ==> final(self)@.contains_key(pin) && h == final(self)@[pin]
                && final(self)@.dom() == old(self)@.dom().insert(pin),
            r is Err ==> final(self)@ == old(self)@,
            forall|q: u32|
                #[trigger] old(self)@.contains_key(q) ==> final(self)@.contains_key(q) && final(self)@[q]
                    == old(self)@[q],
            r matches Err(e) ==> e == GpioError::LineAcquisition,
    {
        match self.lines.get(&pin) {
            Some(h) => {
                let shared = share_line(h);
                proof {
                    assert(self@.dom() =~= old(self)@.dom().insert(pin));
                }
                return Ok(shared);
            },
            None => {},
        }
        let line = match chip_get_line(&mut self.chip, pin) {
            Ok(line) => line,
            Err(_) => {
                return Err(GpioError::LineAcquisition);
            },
        };
        let handle = match request_line(&line, "remote_gpio") {
            Ok(handle) => handle,
            Err(_) => {
                return Err(GpioError::LineAcquisition);
            },
        };
        let shared = Arc::new(handle);
        let given = share_line(&shared);
        self.lines.insert(pin, shared);
        proof {
            assert(self@.dom() =~= old(self)@.dom().insert(pin));
        }
        Ok(given)
    }

    /// One read tick: get-or-create the line for `pin` and read its level,
    /// nonzero reading as `true` (`level_is_high`). The cache changes only
    /// by the acquisition itself: a pin already present stays untouched, and
    /// no other pin's line is ever moved.
    pub fn sample(&mut self, pin: u32) -> (r: Result<bool, GpioError>)
        ensures
            old(self)@.contains_key(pin) ==> final(self)@ == old(self)@,
            r is Ok ==> final(self)@.contains_key(pin),
            final(self)@.dom() == old(self)@.dom() || final(self)@.dom() == old(
                self,
            )@.dom().insert(pin),
            forall|q: u32|
                #[trigger] old(self)@.contains_key(q) ==> final(self)@.contains_key(q) && final(self)@[q]
                    == old(self)@[q],
            r matches Err(e) ==> (e == GpioError::LineAcquisition || e == GpioError::HardwareIo),
    {
        match self.acquire(pin) {
            Ok(line) => read_line(&line),
            Err(e) => Err(e),
        }
    }

    /// One write application: get-or-create the line for `pin` and drive it
    /// to `value` (1 for true, 0 for false, `level_of`). The cache changes
    /// only by the acquisition itself, as in `sample`.
    pub fn apply(&mut self, pin: u32, value: bool) -> (r: Result<(), GpioError>)
        ensures
            old(self)@.contains_key(pin) ==> final(self)@ == old(self)@,
            r is Ok ==> final(self)@.contains_key(pin),
            final(self)@.dom() == old(self)@.dom() || final(self)@.dom() == old(
                self,
            )@.dom().insert(pin),
            forall|q: u32|
                #[trigger] old(self)@.contains_key(q) ==> final(self)@.contains_key(q) && final(self)@[q]
                    == old(self)@[q],
            r matches Err(e) ==> (e == GpioError::LineAcquisition || e == GpioError::HardwareIo),
    {
        match self.acquire(pin) {
            Ok(line) => write_line(&line, value),
            Err(e) => Err(e),
        }
    }
}

} // verus!
