//! A stand-in for the GPIO character device: lines that remember what was
//! written to them and touch no hardware.

use vstd::prelude::*;

verus! {

/// How a line is requested.
#[derive(Clone, Copy, Debug, PartialEq, Eq, Structural)]
pub enum LineRequestFlags {
    INPUT,
    OUTPUT,
}

/// A chip that has every line and never fails.
#[derive(Debug)]
pub struct Chip {}

/// One line of a chip, not yet requested.
#[derive(Debug)]
pub struct Line {
    offset: u32,
}

/// A requested line. It holds the level last written to it.
#[derive(Debug)]
pub struct LineHandle {
    offset: u32,
    flags: LineRequestFlags,
    consumer: String,
    value: u8,
}

impl Chip {
    /// Opens the chip, whatever its name.
    pub fn new(_args: &str) -> (chip: Result<Self, String>)
        ensures
            chip is Ok,
    {
        Ok(Chip {  })
    }

    /// The line at `offset`.
    pub fn get_line(&mut self, offset: u32) -> (line: Result<Line, &str>)
        ensures
            line matches Ok(l) && l.offset() == offset,
    {
        Ok(Line { offset })
    }
}

impl Line {
    /// The place of the line on its chip.
    pub closed spec fn offset(&self) -> u32 {
        self.offset
    }

    /// Requests the line for `consumer`, at the level `default`.
    pub fn request(&self, flags: LineRequestFlags, default: u8, consumer: &str) -> (handle: Result<
        LineHandle,
        String,
    >)
        ensures
            handle matches Ok(h) && h.offset() == self.offset() && h.flags() == flags && h.value()
                == default && h.consumer() == consumer@,
    {
        Ok(LineHandle { offset: self.offset, flags, consumer: consumer.to_owned(), value: default })
    }
}

impl LineHandle {
    /// The place of the line on its chip.
    pub closed spec fn offset(&self) -> u32 {
        self.offset
    }

    /// How the line was requested.
    pub closed spec fn flags(&self) -> LineRequestFlags {
        self.flags
    }

    /// For whom the line was requested.
    pub closed spec fn consumer(&self) -> Seq<char> {
        self.consumer@
    }

    /// The level of the line.
    pub closed spec fn value(&self) -> u8 {
        self.value
    }

    /// Writes `value` to the line. Nothing else about the line changes.
    pub fn set_value(&mut self, value: u8) -> (written: Result<(), String>)
        ensures
            written is Ok,
            final(self).value() == value,
            final(self).offset() == old(self).offset(),
            final(self).flags() == old(self).flags(),
            final(self).consumer() == old(self).consumer(),
    {
        self.value = value;
        Ok(())
    }

    /// Reads the level of the line: the default it was requested with, or
    /// the level last written.
    pub fn get_value(&self) -> (level: Result<u8, String>)
        ensures
            level == Ok::<u8, String>(self.value()),
    {
        Ok(self.value)
    }

    /// The place of the line on its chip.
    pub fn get_offset(&self) -> (offset: u32)
        ensures
            offset == self.offset(),
    {
        self.offset
    }

    /// For whom the line was requested.
    pub fn get_consumer(&self) -> (consumer: String)
        ensures
            consumer@ == self.consumer(),
    {
        self.consumer.clone()
    }
}

} // verus!
