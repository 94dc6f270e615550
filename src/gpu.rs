use crate::bits::{bit_set, get_bit};
use vstd::prelude::*;

verus! {

/// Width of video memory in pixels; a row is this many half-words apart.
pub const VRAM_WIDTH: u32 = 1024;

/// Size of video memory in 16-bit half-words (1 MiB).
pub const VRAM_HALFWORDS: usize = 524288;

/// Capacity of the GP0 command buffer in words.
pub const GP0_BUFFER_WORDS: usize = 16;

/// Command group of a GP0 word (its top three bits).
pub open spec fn gp0_header_spec(word: u32) -> u32 {
    (word >> 29u32) & 7
}

/// Command byte of a GPU word (its top eight bits).
pub open spec fn command_spec(word: u32) -> u32 {
    (word >> 24u32) & 0xFF
}

pub fn gp0_header(word: u32) -> (r: u8)
    ensures
        r as u32 == gp0_header_spec(word),
{
    assert((word >> 29u32) & 7 <= 7) by (bit_vector);
    ((word >> 29) & 0x7) as u8
}

pub fn command(word: u32) -> (r: u8)
    ensures
        r as u32 == command_spec(word),
{
    assert((word >> 24u32) & 0xFF <= 0xFF) by (bit_vector);
    ((word >> 24) & 0xFF) as u8
}

/// Parameter field of a GPU word (its low 23 bits).
pub fn parameter(word: u32) -> (r: u32)
    ensures
        r == word & 0x7F_FFFF,
{
    word & 0x7F_FFFF
}

/// Whether half-word `i` of video memory lies in row `y` between columns
/// `x1` and `x2`. Columns past the row's end run on into the next row.
pub open spec fn row_has(i: int, y: int, x1: int, x2: int) -> bool {
    x1 <= i - VRAM_WIDTH * y <= x2
}

/// Whether half-word `i` lies in one of the rows `y1` to `y2`, between
/// columns `x1` and `x2`.
pub open spec fn in_box(i: int, x1: int, y1: int, x2: int, y2: int) -> bool {
    exists|y: int| #![trigger row_has(i, y, x1, x2)] y1 <= y <= y2 && row_has(i, y, x1, x2)
}

/// `v` with row `y`, columns `x1` to `x2`, set to `fill`.
pub open spec fn fill_row(v: Seq<u16>, y: int, x1: int, x2: int, fill: u16) -> Seq<u16> {
    Seq::new(v.len(), |i: int| if row_has(i, y, x1, x2) { fill } else { v[i] })
}

/// `v` with the box of rows `y1` to `y2` and columns `x1` to `x2` set to
/// `fill`.
pub open spec fn fill_box(v: Seq<u16>, x1: int, y1: int, x2: int, y2: int, fill: u16) -> Seq<u16> {
    Seq::new(v.len(), |i: int| if in_box(i, x1, y1, x2, y2) { fill } else { v[i] })
}

/// Whether every half-word of the box lies inside a memory of `len`
/// half-words.
pub open spec fn box_fits(len: int, x1: int, y1: int, x2: int, y2: int) -> bool {
    x1 > x2 || y1 > y2 || VRAM_WIDTH * y2 + x2 < len
}

/// Pixel value of a rectangle command: the low half of its colour field.
pub open spec fn fill_of(word: u32) -> u16 {
    (word & 0x1FF_FFFF) as u16
}

/// Abstract state of the graphics unit.
pub struct GpuView {
    pub vram: Seq<u16>,
    pub status_reg: u32,
    pub pixel_count: u32,
    pub enabled: bool,
    pub gp0_words_to_read: usize,
    pub gp0_buffer: Seq<u32>,
    pub gp0_buffer_address: nat,
    pub texpage_x_base: u16,
    pub texpage_y_base: u16,
    pub draw_area_top_left_x: u16,
    pub draw_area_top_left_y: u16,
    pub draw_area_bottom_right_x: u16,
    pub draw_area_bottom_right_y: u16,
}

impl GpuView {
    pub open spec fn wf(self) -> bool {
        &&& self.vram.len() == VRAM_HALFWORDS
        &&& self.gp0_buffer.len() == GP0_BUFFER_WORDS
        &&& self.gp0_buffer_address < GP0_BUFFER_WORDS
    }
}

/// The state after GP0 receives `value`, or `None` where the unit cannot
/// carry the command out: a complete untextured polygon (polygons are not
/// drawn), an unknown environment command or command group, or a
/// rectangle that reaches past video memory.
pub open spec fn gp0_next(g: GpuView, value: u32) -> Option<GpuView> {
    let b = g.gp0_buffer.update(g.gp0_buffer_address as int, value);
    let n = g.gp0_buffer_address + 1;
    let cmd = b[0];
    let pushed = GpuView { gp0_buffer: b, gp0_buffer_address: n, ..g };
    let restart = GpuView { gp0_buffer: b, gp0_buffer_address: 1, ..g };
    let done = GpuView { gp0_buffer: b, gp0_buffer_address: 0, ..g };
    let header = gp0_header_spec(cmd);
    if header == 0 {
        Some(done)
    } else if header == 1 {
        if bit_set(cmd, 28) || bit_set(cmd, 1) {
            Some(restart)
        } else if n < (if bit_set(cmd, 27) { 4nat } else { 3nat }) {
            Some(pushed)
        } else {
            None
        }
    } else if header == 3 {
        let size = (cmd >> 27u32) & 3;
        if bit_set(cmd, 26) {
            Some(restart)
        } else if n < (if size == 0 { 3nat } else { 2nat }) {
            Some(pushed)
        } else if size == 1 {
            let x = (b[1] & 0xFFFF) as int;
            let y = ((b[1] >> 16u32) & 0xFFFF) as int;
            let a = VRAM_WIDTH * y + x;
            if a < g.vram.len() {
                Some(GpuView { vram: g.vram.update(a, fill_of(cmd)), ..done })
            } else {
                None
            }
        } else if size == 0 {
            let x1 = (b[1] & 0xFFFF) as int;
            let y1 = ((b[1] >> 16u32) & 0xFFFF) as int;
            let x2 = (b[2] & 0xFFFF) as int;
            let y2 = ((b[2] >> 16u32) & 0xFFFF) as int;
            if box_fits(g.vram.len() as int, x1, y1, x2, y2) {
                Some(GpuView { vram: fill_box(g.vram, x1, y1, x2, y2, fill_of(cmd)), ..done })
            } else {
                None
            }
        } else {
            Some(done)
        }
    } else if header == 7 {
        let c = command_spec(cmd);
        if c == 0xE1 {
            Some(
                GpuView {
                    texpage_x_base: ((cmd & 0xF) * 64) as u16,
                    texpage_y_base: if bit_set(cmd, 4) { 256u16 } else { 0u16 },
                    ..done
                },
            )
        } else if c == 0xE3 {
            Some(
                GpuView {
                    draw_area_top_left_x: (cmd & 0x3FF) as u16,
                    draw_area_top_left_y: ((cmd >> 10u32) & 0x1FF) as u16,
                    ..done
                },
            )
        } else if c == 0xE4 {
            Some(
                GpuView {
                    draw_area_bottom_right_x: (cmd & 0x3FF) as u16,
                    draw_area_bottom_right_y: ((cmd >> 10u32) & 0x1FF) as u16,
                    ..done
                },
            )
        } else if c == 0xE5 {
            Some(done)
        } else {
            None
        }
    } else {
        None
    }
}

/// The graphics unit: video memory, the GP0 command buffer and the drawing
/// environment.
pub struct Gpu {
    vram: Vec<u16>,
    status_reg: u32,
    pixel_count: u32,
    enabled: bool,
    gp0_words_to_read: usize,
    gp0_buffer: [u32; 16],
    gp0_buffer_address: usize,
    texpage_x_base: u16,
    texpage_y_base: u16,
    draw_area_top_left_x: u16,
    draw_area_top_left_y: u16,
    draw_area_bottom_right_x: u16,
    draw_area_bottom_right_y: u16,
}

impl View for Gpu {
    type V = GpuView;

    closed spec fn view(&self) -> GpuView {
        GpuView {
            vram: self.vram@,
            status_reg: self.status_reg,
            pixel_count: self.pixel_count,
            enabled: self.enabled,
            gp0_words_to_read: self.gp0_words_to_read,
            gp0_buffer: self.gp0_buffer@,
            gp0_buffer_address: self.gp0_buffer_address as nat,
            texpage_x_base: self.texpage_x_base,
            texpage_y_base: self.texpage_y_base,
            draw_area_top_left_x: self.draw_area_top_left_x,
            draw_area_top_left_y: self.draw_area_top_left_y,
            draw_area_bottom_right_x: self.draw_area_bottom_right_x,
            draw_area_bottom_right_y: self.draw_area_bottom_right_y,
        }
    }
}

impl Gpu {
    /// A unit with cleared video memory and an empty command buffer.
    pub fn new() -> (r: Gpu)
        ensures
            r@.wf(),
            forall|i: int| 0 <= i < r@.vram.len() ==> r@.vram[i] == 0,
            forall|i: int| 0 <= i < r@.gp0_buffer.len() ==> r@.gp0_buffer[i] == 0,
            r@.status_reg == 0,
            r@.pixel_count == 0,
            !r@.enabled,
            r@.gp0_words_to_read == 0,
            r@.gp0_buffer_address == 0,
            r@.texpage_x_base == 0,
            r@.texpage_y_base == 0,
            r@.draw_area_top_left_x == 0,
            r@.draw_area_top_left_y == 0,
            r@.draw_area_bottom_right_x == 0,
            r@.draw_area_bottom_right_y == 0,
    {
        Gpu {
            vram: vec![0; VRAM_HALFWORDS],
            status_reg: 0,
            pixel_count: 0,
            enabled: false,
            gp0_words_to_read: 0,
            gp0_buffer: [0; 16],
            gp0_buffer_address: 0,
            texpage_x_base: 0,
            texpage_y_base: 0,
            draw_area_top_left_x: 0,
            draw_area_top_left_y: 0,
            draw_area_bottom_right_x: 0,
            draw_area_bottom_right_y: 0,
        }
    }

    pub fn read_status_register(&self) -> (r: u32)
        ensures
            r == self@.status_reg,
    {
        self.status_reg
    }

    /// Whether the unit can carry out GP0 word `value` in its current state,
    /// that is, whether `send_gp0_command` may be given it.
    pub fn gp0_accepts(&self, value: u32) -> (r: bool)
        requires
            self@.wf(),
        ensures
            r == (gp0_next(self@, value) is Some),
    {
        let addr = self.gp0_buffer_address;
        let n = addr + 1;
        let cmd = if addr == 0 { value } else { self.gp0_buffer[0] };
        let w1 = if addr == 1 { value } else { self.gp0_buffer[1] };
        let w2 = if addr == 2 { value } else { self.gp0_buffer[2] };
        let header = gp0_header(cmd);
        if header == 0 {
            true
        } else if header == 1 {
            let verts: usize = if get_bit(cmd, 27) { 4 } else { 3 };
            get_bit(cmd, 28) || get_bit(cmd, 1) || n < verts
        } else if header == 3 {
            if get_bit(cmd, 26) {
                return true;
            }
            let size = (cmd >> 27) & 0x3;
            let length: usize = if size == 0 { 3 } else { 2 };
            if n < length {
                true
            } else if size == 1 {
                let x = w1 & 0xFFFF;
                let y = (w1 >> 16) & 0xFFFF;
                assert(x <= 0xFFFF && y <= 0xFFFF) by (bit_vector)
                    requires
                        x == w1 & 0xFFFF,
                        y == (w1 >> 16u32) & 0xFFFF,
                ;
                (self.point_to_address(x, y) as usize) < self.vram.len()
            } else if size == 0 {
                let x1 = w1 & 0xFFFF;
                let y1 = (w1 >> 16) & 0xFFFF;
                let x2 = w2 & 0xFFFF;
                let y2 = (w2 >> 16) & 0xFFFF;
                assert(x2 <= 0xFFFF && y2 <= 0xFFFF) by (bit_vector)
                    requires
                        x2 == w2 & 0xFFFF,
                        y2 == (w2 >> 16u32) & 0xFFFF,
                ;
                x1 > x2 || y1 > y2 || (self.point_to_address(x2, y2) as usize) < self.vram.len()
            } else {
                true
            }
        } else if header == 7 {
            let c = command(cmd);
            c == 0xE1 || c == 0xE3 || c == 0xE4 || c == 0xE5
        } else {
            false
        }
    }

    /// Reading GP0 is not modelled: it always gives zero.
    pub fn read_word_gp0(&mut self) -> (r: u32)
        ensures
            r == 0,
            final(self)@ == old(self)@,
    {
        0
    }

    pub fn get_vram(&self) -> (r: &Vec<u16>)
        ensures
            r@ == self@.vram,
    {
        &self.vram
    }

    /// Takes one word into the GP0 command buffer and carries out the
    /// buffered command once all of its words are there.
    ///
    /// Textured or shaded polygons and textured rectangles are not drawn:
    /// the buffer restarts after their first word.
    pub fn send_gp0_command(&mut self, value: u32)
        requires
            old(self)@.wf(),
            gp0_next(old(self)@, value) is Some,
        ensures
            final(self)@ == gp0_next(old(self)@, value)->0,
            final(self)@.wf(),
    {
        self.gp0_push(value);
        let cmd = self.gp0_buffer[0];
        let header = gp0_header(cmd);
        if header == 0 {
            // no operation
        } else if header == 1 {
            if get_bit(cmd, 28) || get_bit(cmd, 1) {
                self.gp0_buffer_address = 1;
                return;
            }
            let verts: usize = if get_bit(cmd, 27) { 4 } else { 3 };
            if self.gp0_buffer_address < verts {
                return;
            }
            // A complete flat polygon: not drawn, and kept out by the
            // precondition.
        } else if header == 3 {
            if get_bit(cmd, 26) {
                self.gp0_buffer_address = 1;
                return;
            }
            let size = (cmd >> 27) & 0x3;
            let length: usize = 2 + if size == 0 { 1 } else { 0 };
            if self.gp0_buffer_address < length {
                return;
            }
            let fill = (self.gp0_buffer[0] & 0x1FFFFFF) as u16;
            if size == 1 {
                let w1 = self.gp0_buffer[1];
                let x = w1 & 0xFFFF;
                let y = (w1 >> 16) & 0xFFFF;
                assert(x <= 0xFFFF && y <= 0xFFFF) by (bit_vector)
                    requires
                        x == w1 & 0xFFFF,
                        y == (w1 >> 16u32) & 0xFFFF,
                ;
                let address = self.point_to_address(x, y) as usize;
                self.vram.set(address, fill);
            } else if size == 0 {
                let w1 = self.gp0_buffer[1];
                let w2 = self.gp0_buffer[2];
                let x1 = w1 & 0xFFFF;
                let y1 = (w1 >> 16) & 0xFFFF;
                let x2 = w2 & 0xFFFF;
                let y2 = (w2 >> 16) & 0xFFFF;
                assert(y2 <= 0xFFFF) by (bit_vector)
                    requires
                        y2 == (w2 >> 16u32) & 0xFFFF,
                ;
                self.draw_solid_box(x1, y1, x2, y2, fill);
            }
        } else if header == 7 {
            let c = command(cmd);
            if c == 0xE1 {
                // Draw mode: only the texture page base is kept.
                assert(cmd & 0xF <= 0xF) by (bit_vector);
                self.texpage_x_base = ((cmd & 0xF) * 64) as u16;
                self.texpage_y_base = if get_bit(cmd, 4) { 256 } else { 0 };
            } else if c == 0xE3 {
                self.draw_area_top_left_x = (cmd & 0x3FF) as u16;
                self.draw_area_top_left_y = ((cmd >> 10) & 0x1FF) as u16;
            } else if c == 0xE4 {
                self.draw_area_bottom_right_x = (cmd & 0x3FF) as u16;
                self.draw_area_bottom_right_y = ((cmd >> 10) & 0x1FF) as u16;
            }
            // 0xE5, the drawing offset, is not modelled.
        }
        self.gp0_clear();
    }

    /// Carries out a GP1 (display control) command. Returns whether the
    /// command is one the unit knows; unknown commands change nothing.
    pub fn send_gp1_command(&mut self, cmd: u32) -> (known: bool)
        requires
            old(self)@.wf(),
        ensures
            final(self)@.wf(),
            known <==> (command_spec(cmd) == 0x00 || command_spec(cmd) == 0x06 || command_spec(cmd)
                == 0x10),
            command_spec(cmd) == 0x00 ==> final(self)@ == (GpuView {
                vram: Seq::new(VRAM_HALFWORDS as nat, |i: int| 0u16),
                status_reg: 0,
                pixel_count: 0,
                enabled: false,
                ..old(self)@
            }),
            command_spec(cmd) != 0x00 ==> final(self)@ == old(self)@,
    {
        let c = command(cmd);
        if c == 0x00 {
            // Reset
            self.enabled = false;
            self.status_reg = 0;
            self.pixel_count = 0;
            self.vram = vec![0; VRAM_HALFWORDS];
            assert(self.vram@ =~= Seq::new(VRAM_HALFWORDS as nat, |i: int| 0u16));
            true
        } else {
            // 0x06 (horizontal display range) and 0x10 (GPU information)
            // are accepted and ignored.
            c == 0x06 || c == 0x10
        }
    }

    fn point_to_address(&self, x: u32, y: u32) -> (r: u32)
        requires
            VRAM_WIDTH * y + x <= u32::MAX,
        ensures
            r == VRAM_WIDTH * y + x,
    {
        VRAM_WIDTH * y + x
    }

    fn gp0_push(&mut self, val: u32)
        requires
            old(self)@.wf(),
        ensures
            final(self)@ == (GpuView {
                gp0_buffer: old(self)@.gp0_buffer.update(old(self)@.gp0_buffer_address as int, val),
                gp0_buffer_address: old(self)@.gp0_buffer_address + 1,
                ..old(self)@
            }),
    {
        self.gp0_buffer[self.gp0_buffer_address] = val;
        self.gp0_buffer_address = self.gp0_buffer_address + 1;
    }

    fn gp0_clear(&mut self)
        ensures
            final(self)@ == (GpuView { gp0_buffer_address: 0, ..old(self)@ }),
    {
        self.gp0_buffer_address = 0;
    }

    /// Fills row `y` from column `x1` to column `x2` with `fill`.
    fn draw_horizontal_line(&mut self, x1: u32, x2: u32, y: u32, fill: u16)
        requires
            old(self).vram@.len() == VRAM_HALFWORDS,
            y <= 0xFFFF,
            x1 > x2 || VRAM_WIDTH * y + x2 < old(self).vram@.len(),
        ensures
            final(self)@ == (GpuView {
                vram: fill_row(old(self)@.vram, y as int, x1 as int, x2 as int, fill),
                ..old(self)@
            }),
    {
        if x1 > x2 {
            assert(self.vram@ =~= fill_row(old(self)@.vram, y as int, x1 as int, x2 as int, fill));
            return;
        }
        let mut x = x1;
        while x <= x2
            invariant
                x1 <= x <= x2 + 1,
                y <= 0xFFFF,
                old(self).vram@.len() == VRAM_HALFWORDS,
                VRAM_WIDTH * y + x2 < old(self).vram@.len(),
                self.vram@.len() == old(self).vram@.len(),
                self@ == (GpuView { vram: self.vram@, ..old(self)@ }),
                forall|i: int|
                    0 <= i < self.vram@.len() ==> self.vram@[i] == if x1 <= i - VRAM_WIDTH * y < x {
                        fill
                    } else {
                        old(self).vram@[i]
                    },
            decreases x2 + 1 - x,
        {
            let address = self.point_to_address(x, y) as usize;
            self.vram.set(address, fill);
            x = x + 1;
        }
        assert(self.vram@ =~= fill_row(old(self)@.vram, y as int, x1 as int, x2 as int, fill));
    }

    /// Fills rows `y1` to `y2`, columns `x1` to `x2`, with `fill`.
    fn draw_solid_box(&mut self, x1: u32, y1: u32, x2: u32, y2: u32, fill: u16)
        requires
            old(self).vram@.len() == VRAM_HALFWORDS,
            y2 <= 0xFFFF,
            box_fits(old(self).vram@.len() as int, x1 as int, y1 as int, x2 as int, y2 as int),
        ensures
            final(self)@ == (GpuView {
                vram: fill_box(old(self)@.vram, x1 as int, y1 as int, x2 as int, y2 as int, fill),
                ..old(self)@
            }),
    {
        if x1 > x2 || y1 > y2 {
            assert(self.vram@ =~= fill_box(old(self)@.vram, x1 as int, y1 as int, x2 as int, y2 as int, fill));
            return;
        }
        let mut y = y1;
        assert(self.vram@ =~= fill_box(old(self)@.vram, x1 as int, y1 as int, x2 as int, y1 - 1, fill));
        while y <= y2
            invariant
                x1 <= x2,
                y1 <= y <= y2 + 1,
                y2 <= 0xFFFF,
                old(self).vram@.len() == VRAM_HALFWORDS,
                VRAM_WIDTH * y2 + x2 < old(self).vram@.len(),
                self@ == (GpuView { vram: self.vram@, ..old(self)@ }),
                self.vram@ == fill_box(old(self)@.vram, x1 as int, y1 as int, x2 as int, y - 1, fill),
            decreases y2 + 1 - y,
        {
            proof {
                assert(VRAM_WIDTH * y + x2 <= VRAM_WIDTH * y2 + x2);
            }
            let ghost before = self.vram@;
            self.draw_horizontal_line(x1, x2, y, fill);
            proof {
                let prev = fill_box(old(self)@.vram, x1 as int, y1 as int, x2 as int, y - 1, fill);
                let next = fill_box(old(self)@.vram, x1 as int, y1 as int, x2 as int, y as int, fill);
                assert forall|i: int| 0 <= i < next.len() implies #[trigger] self.vram@[i] == next[i] by {
                    if in_box(i, x1 as int, y1 as int, x2 as int, y as int) {
                        let w = choose|w: int| y1 <= w <= y && row_has(i, w, x1 as int, x2 as int);
                        if w != y {
                            assert(in_box(i, x1 as int, y1 as int, x2 as int, y - 1));
                        }
                    } else {
                        if row_has(i, y as int, x1 as int, x2 as int) {
                            assert(y1 <= y <= y);
                        }
                        if in_box(i, x1 as int, y1 as int, x2 as int, y - 1) {
                            let w = choose|w: int| y1 <= w <= y - 1 && row_has(i, w, x1 as int, x2 as int);
                            assert(row_has(i, w, x1 as int, x2 as int));
                        }
                    }
                }
                assert(self.vram@ =~= next);
            }
            y = y + 1;
        }
    }
}

} // verus!
