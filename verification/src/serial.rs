//! Serial UART driver logic: the initialisation program, the line status
//! bits, and the line discipline of the receive buffer.

use vstd::prelude::*;
use crate::io::PortWrite;

verus! {

/// I/O port base of the first serial port.
pub const PORT: u16 = 0x3f8;

/// Capacity of the receive buffer in bytes.
pub const BUFFER_SIZE: usize = 256;

/// Line status bit: a received byte is waiting.
pub const LINE_STATUS_DATA_READY: u8 = 0x01;

/// Line status bit: the transmit holding register is empty.
pub const LINE_STATUS_TRANSMIT_EMPTY: u8 = 0x20;

/// The byte sent through the loopback during the self test.
pub const LOOPBACK_TEST_BYTE: u8 = 0xAE;

/// The byte that ends a line.
pub const NEWLINE: u8 = 10;

/// Register offsets from the port base.
pub const REG_DATA: u16 = 0;

pub const REG_INTERRUPT_ENABLE: u16 = 1;

pub const REG_FIFO_CONTROL: u16 = 2;

pub const REG_LINE_CONTROL: u16 = 3;

pub const REG_MODEM_CONTROL: u16 = 4;

pub const REG_LINE_STATUS: u16 = 5;

/// The writes that configure the UART and start the loopback self test:
/// interrupts off, divisor 3 through the divisor latch, 8 data bits without
/// parity and one stop bit, FIFOs on and cleared, loopback mode, test byte.
pub open spec fn init_program() -> Seq<PortWrite> {
    seq![
        PortWrite { port: 0x3f9, value: 0x00 },
        PortWrite { port: 0x3fb, value: 0x80 },
        PortWrite { port: 0x3f8, value: 0x03 },
        PortWrite { port: 0x3f9, value: 0x00 },
        PortWrite { port: 0x3fb, value: 0x03 },
        PortWrite { port: 0x3fa, value: 0xC7 },
        PortWrite { port: 0x3fc, value: 0x0B },
        PortWrite { port: 0x3fc, value: 0x1E },
        PortWrite { port: 0x3f8, value: 0xAE },
    ]
}

/// Whether a received byte is waiting, by the line status register.
pub open spec fn data_ready(line_status: u8) -> bool {
    line_status & LINE_STATUS_DATA_READY != 0
}

/// Whether the next byte can be sent, by the line status register.
pub open spec fn transmit_empty(line_status: u8) -> bool {
    line_status & LINE_STATUS_TRANSMIT_EMPTY != 0
}

/// Whether a read that has stored `received` is over: the buffer is full or
/// the last stored byte ends the line.
pub open spec fn read_complete(received: Seq<u8>) -> bool {
    received.len() >= BUFFER_SIZE || (received.len() > 0 && received.last() == NEWLINE)
}

/// What a read holds after one more byte arrives. A read that is over takes
/// nothing more.
pub open spec fn after_byte(received: Seq<u8>, c: u8) -> Seq<u8> {
    if read_complete(received) {
        received
    } else {
        received.push(c)
    }
}

/// What a read holds after a run of bytes arrives, first byte first.
pub open spec fn after_bytes(received: Seq<u8>, input: Seq<u8>) -> Seq<u8>
    decreases input.len(),
{
    if input.len() == 0 {
        received
    } else {
        after_byte(after_bytes(received, input.drop_last()), input.last())
    }
}

/// The line that a read hands out: everything stored but the last byte.
pub open spec fn line_of(received: Seq<u8>) -> Seq<u8> {
    if received.len() != 0 {
        received.subrange(0, received.len() - 1)
    } else {
        Seq::empty()
    }
}

/// The byte sent for a character: the low eight bits of its code.
pub open spec fn low_byte(c: char) -> u8 {
    (c as u32 & 0xFF) as u8
}

/// The bytes sent for a text, one per character.
pub open spec fn transmit_bytes(text: Seq<char>) -> Seq<u8> {
    text.map_values(|c: char| low_byte(c))
}

/// The driver of one UART that passed its self test, with its receive buffer.
pub struct SerialWriter {
    buffer: [u8; 256],
    len: usize,
}

impl View for SerialWriter {
    type V = Seq<u8>;

    /// The bytes stored by the current read.
    closed spec fn view(&self) -> Seq<u8> {
        self.buffer@.subrange(0, self.len as int)
    }
}

impl SerialWriter {
    /// Holds of every driver: the stored bytes fit the buffer.
    #[verifier::type_invariant]
    pub closed spec fn wf(self) -> bool {
        self.len <= BUFFER_SIZE
    }

    /// The writes to perform, in order, before the self test's echo is read
    /// from the data register.
    pub fn init_sequence() -> (program: Vec<PortWrite>)
        ensures
            program@ == init_program(),
    {
        let mut program: Vec<PortWrite> = Vec::new();
        program.push(PortWrite { port: PORT + REG_INTERRUPT_ENABLE, value: 0x00 });
        program.push(PortWrite { port: PORT + REG_LINE_CONTROL, value: 0x80 });
        program.push(PortWrite { port: PORT + REG_DATA, value: 0x03 });
        program.push(PortWrite { port: PORT + REG_INTERRUPT_ENABLE, value: 0x00 });
        program.push(PortWrite { port: PORT + REG_LINE_CONTROL, value: 0x03 });
        program.push(PortWrite { port: PORT + REG_FIFO_CONTROL, value: 0xC7 });
        program.push(PortWrite { port: PORT + REG_MODEM_CONTROL, value: 0x0B });
        program.push(PortWrite { port: PORT + REG_MODEM_CONTROL, value: 0x1E });
        program.push(PortWrite { port: PORT + REG_DATA, value: LOOPBACK_TEST_BYTE });
        assert(program@ =~= init_program());
        program
    }

    /// The write that ends the self test and puts the UART into normal
    /// operation.
    pub fn normal_mode() -> (w: PortWrite)
        ensures
            w == (PortWrite { port: 0x3fc, value: 0x0F }),
    {
        PortWrite { port: PORT + REG_MODEM_CONTROL, value: 0x0F }
    }

    /// The driver for a UART whose self test echoed `echo`: there is one
    /// exactly when the test byte came back. Its receive buffer is empty.
    pub fn new(echo: u8) -> (writer: Option<SerialWriter>)
        ensures
            writer is Some <==> echo == LOOPBACK_TEST_BYTE,
            writer matches Some(w) ==> w@ == Seq::<u8>::empty(),
    {
        if echo != LOOPBACK_TEST_BYTE {
            return None;
        }
        Some(SerialWriter { buffer: [0u8; 256], len: 0 })
    }

    /// Whether a received byte is waiting.
    pub fn serial_received(line_status: u8) -> (ready: bool)
        ensures
            ready == data_ready(line_status),
    {
        line_status & LINE_STATUS_DATA_READY != 0
    }

    /// Whether the next byte can be sent.
    pub fn serial_sent(line_status: u8) -> (empty: bool)
        ensures
            empty == transmit_empty(line_status),
    {
        line_status & LINE_STATUS_TRANSMIT_EMPTY != 0
    }

    /// The write that sends `data`, to be performed once the transmit holding
    /// register is empty.
    pub fn write(&self, data: u8) -> (w: PortWrite)
        ensures
            w == (PortWrite { port: PORT, value: data }),
    {
        PortWrite { port: PORT, value: data }
    }

    /// The bytes to send for a text, one per character, in order.
    pub fn write_str(&self, s: &str) -> (bytes: Vec<u8>)
        ensures
            bytes@ == transmit_bytes(s@),
    {
        broadcast use vstd::string::group_string_axioms;

        let mut bytes: Vec<u8> = Vec::new();
        for c in it: s.chars()
            invariant
                it.seq() == s@,
                bytes@ == transmit_bytes(s@.subrange(0, it.index())),
        {
            let code: u32 = c as u32;
            assert(code & 0xFF <= 0xFF) by (bit_vector);
            let b: u8 = (code & 0xFF) as u8;
            proof {
                let done = s@.subrange(0, it.index());
                let next = s@.subrange(0, it.index() + 1);
                assert(transmit_bytes(next) =~= transmit_bytes(done).push(b));
            }
            bytes.push(b);
        }
        assert(s@.subrange(0, s@.len() as int) == s@);
        bytes
    }

    /// Whether the current read is over.
    pub fn is_complete(&self) -> (done: bool)
        ensures
            done == read_complete(self@),
    {
        proof {
            use_type_invariant(self);
        }
        let len: usize = self.len;
        len >= BUFFER_SIZE || (len > 0 && self.buffer[len - 1] == NEWLINE)
    }

    /// Starts a new read: the buffer is empty again.
    pub fn begin_read(&mut self)
        ensures
            final(self)@ == Seq::<u8>::empty(),
    {
        self.len = 0;
    }

    /// Takes one received byte into the current read and tells whether the
    /// read goes on. A read that is over takes nothing more.
    pub fn receive(&mut self, c: u8) -> (more: bool)
        ensures
            final(self)@ == after_byte(old(self)@, c),
            more == !read_complete(final(self)@),
    {
        proof {
            use_type_invariant(&*self);
        }
        if self.is_complete() {
            return false;
        }
        let ghost before = self@;
        self.buffer[self.len] = c;
        self.len += 1;
        assert(self@ =~= before.push(c));
        !self.is_complete()
    }

    /// Starts a new read and takes bytes from `input` until the read is over
    /// or the input is used up. Returns the number of bytes taken.
    pub fn read_str_to_buffer(&mut self, input: &[u8]) -> (taken: usize)
        ensures
            final(self)@ == after_bytes(Seq::empty(), input@),
            taken == final(self)@.len(),
            final(self)@ == input@.subrange(0, taken as int),
    {
        self.begin_read();
        let mut i: usize = 0;
        let mut more: bool = true;
        while more && i < input.len()
            invariant
                i <= input.len(),
                self@ == after_bytes(Seq::empty(), input@.subrange(0, i as int)),
                self@ == input@.subrange(0, i as int),
                more == !read_complete(self@),
            decreases input.len() - i,
        {
            assert(input@.subrange(0, i + 1).drop_last() == input@.subrange(0, i as int));
            more = self.receive(input[i]);
            assert(self@ =~= input@.subrange(0, i + 1));
            i += 1;
        }
        proof {
            lemma_complete_read_ignores_rest(input@, i as int);
        }
        i
    }

    /// The line of the current read: the stored bytes without the last one.
    pub fn line(&self) -> (line: Vec<u8>)
        ensures
            line@ == line_of(self@),
    {
        proof {
            use_type_invariant(self);
        }
        let len: usize = self.len;
        let mut line: Vec<u8> = Vec::new();
        if len != 0 {
            let mut i: usize = 0;
            while i < len - 1
                invariant
                    len == self.len,
                    len <= BUFFER_SIZE,
                    len != 0,
                    i <= len - 1,
                    line@ == self@.subrange(0, i as int),
                decreases len - 1 - i,
            {
                line.push(self.buffer[i]);
                assert(line@ =~= self@.subrange(0, i + 1));
                i += 1;
            }
        }
        assert(line@ =~= line_of(self@));
        line
    }
}

/// Once the first `n` bytes of an input complete a read, or are the whole
/// input, the rest of the input changes nothing.
pub proof fn lemma_complete_read_ignores_rest(input: Seq<u8>, n: int)
    requires
        0 <= n <= input.len(),
        after_bytes(Seq::empty(), input.subrange(0, n)) == input.subrange(0, n),
        n == input.len() || read_complete(input.subrange(0, n)),
    ensures
        after_bytes(Seq::empty(), input) == input.subrange(0, n),
    decreases input.len() - n,
{
    if n == input.len() {
        assert(input.subrange(0, n) == input);
    } else {
        let front = input.drop_last();
        assert(front.subrange(0, n) == input.subrange(0, n));
        lemma_complete_read_ignores_rest(front, n);
    }
}

/// Input without a newline among its first `n - 1` bytes is stored byte for
/// byte up to `n`, as long as that fits the buffer.
pub proof fn lemma_plain_input_is_stored(input: Seq<u8>, n: int)
    requires
        0 <= n <= input.len(),
        n <= BUFFER_SIZE,
        forall|i: int| 0 <= i < n - 1 ==> input[i] != NEWLINE,
    ensures
        after_bytes(Seq::empty(), input.subrange(0, n)) == input.subrange(0, n),
    decreases n,
{
    if n > 0 {
        lemma_plain_input_is_stored(input, n - 1);
        assert(input.subrange(0, n).drop_last() == input.subrange(0, n - 1));
        assert(input.subrange(0, n - 1).push(input[n - 1]) == input.subrange(0, n));
        if n - 1 > 0 {
            assert(input.subrange(0, n - 1).last() == input[n - 2]);
        }
    }
}

/// A line that fits the buffer is read whole and without its newline,
/// whatever follows it.
pub proof fn line_ends_at_newline(text: Seq<u8>, rest: Seq<u8>)
    requires
        text.len() < BUFFER_SIZE,
        forall|i: int| 0 <= i < text.len() ==> text[i] != NEWLINE,
    ensures
        line_of(after_bytes(Seq::empty(), text.push(NEWLINE) + rest)) == text,
{
    let input = text.push(NEWLINE) + rest;
    let n = text.len() as int + 1;
    lemma_plain_input_is_stored(input, n);
    assert(input.subrange(0, n) == text.push(NEWLINE));
    assert(text.push(NEWLINE).last() == NEWLINE);
    lemma_complete_read_ignores_rest(input, n);
    assert(text.push(NEWLINE).subrange(0, text.len() as int) == text);
}

/// Input that fills the buffer before a newline is cut without any sign of
/// it: the line is the first capacity-minus-one bytes.
pub proof fn full_buffer_truncates(input: Seq<u8>)
    requires
        input.len() >= BUFFER_SIZE,
        forall|i: int| 0 <= i < BUFFER_SIZE - 1 ==> input[i] != NEWLINE,
    ensures
        line_of(after_bytes(Seq::empty(), input)) == input.subrange(0, BUFFER_SIZE - 1),
{
    let n = BUFFER_SIZE as int;
    lemma_plain_input_is_stored(input, n);
    lemma_complete_read_ignores_rest(input, n);
    assert(input.subrange(0, n).subrange(0, n - 1) == input.subrange(0, n - 1));
}

/// The line that the last read left in the driver's buffer.
pub fn serial_read(writer: &SerialWriter) -> (line: Vec<u8>)
    ensures
        line@ == line_of(writer@),
{
    writer.line()
}

} // verus!
