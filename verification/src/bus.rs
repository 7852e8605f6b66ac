//! The bus: work RAM, the picture and audio units, the cartridge slot, the
//! controller ports and the OAM DMA engine, dispatched by address range, all
//! advanced in lock step from one master clock.

use vstd::prelude::*;

use crate::apu::Apu;
use crate::apu::spec_apu_status;
use crate::cartdrige::Cartdrige;
use crate::cpu::Cpu;
use crate::input::Controllers;
use crate::input::InputProvider;
use crate::ppu::Loopy;
use crate::ppu::Ppu;
use crate::ppu::PpuOutput;
use crate::ppu::Status;
use crate::ppu::cart_inv;
use crate::ppu::cart_views_eq;

verus! {

broadcast use crate::bits::lemma_u8_and_le, crate::bits::lemma_u8_and_le_left, crate::bits::lemma_u8_or_le, crate::bits::lemma_u16_and_le;

/// The OAM DMA engine's state: source page, destination offset, the staging
/// byte, and the dummy-alignment flag.
pub struct Dma {
    pub dma_page: u8,
    pub dma_addr: u8,
    pub dma_data: u8,
    pub is_doing_dma: bool,
    pub dma_dummy: bool,
}

impl Dma {
    pub fn new() -> (r: Dma)
        ensures
            r.dma_page == 0,
            r.dma_addr == 0,
            r.dma_data == 0,
            r.is_doing_dma == false,
            r.dma_dummy == true,
    {
        Dma { dma_page: 0, dma_addr: 0, dma_data: 0, is_doing_dma: false, dma_dummy: true }
    }
}

/// Everything on the bus except the CPU itself: the CPU steps against this,
/// so that every cross-device access goes through one dispatch point.
pub struct BusDevices<C: Cartdrige, P: InputProvider, O: PpuOutput> {
    pub cpu_ram: Vec<u8>,
    pub ppu: Ppu<O>,
    pub apu: Apu,
    pub cartdrige: Option<C>,
    pub controllers: Controllers<P>,
    pub dma: Dma,
}

impl<C: Cartdrige, P: InputProvider, O: PpuOutput> BusDevices<C, P, O> {
    pub open spec fn wf(&self) -> bool {
        &&& self.cpu_ram@.len() == 2048
        &&& self.ppu.wf()
        &&& cart_inv(self.cartdrige)
        &&& self.apu.wf()
    }

    /// Whether the cartridge claims a CPU read of `address`.
    pub open spec fn spec_cart_cpu_claims(&self, address: u16) -> bool {
        self.cartdrige is Some && self.cartdrige->Some_0.cpu_claims(address)
    }

    /// Whether the cartridge claims a CPU write to `address`.
    pub open spec fn spec_cart_cpu_write_claims(&self, address: u16) -> bool {
        self.cartdrige is Some && self.cartdrige->Some_0.cpu_write_claims(address)
    }

    /// The byte a CPU read returns, by dispatch order: a claiming cartridge
    /// wins; then mirrored work RAM below $2000; then the eight picture
    /// register ports mirrored through $3FFF; reads of $4016/$4017 poll a
    /// controller (their value depends on the buttons, so it has no place
    /// here); $4015 reads audio status; everything else is open bus.
    pub open spec fn spec_read_value(&self, address: u16, read_only: bool) -> u8 {
        if self.spec_cart_cpu_claims(address) {
            self.cartdrige->Some_0.cpu_byte(address)
        } else if address <= 0x1fff {
            self.cpu_ram@[(address % 0x800) as int]
        } else if address <= 0x3fff {
            self.ppu.spec_reg_read_value(self.cartdrige, (address % 8) as u16, read_only)
        } else if address == 0x4015 && !read_only {
            spec_apu_status(self.apu)
        } else {
            0
        }
    }

    /// A read that leaves every device exactly as it was: a cartridge claim,
    /// work RAM, or open bus. Register and port reads have side effects.
    pub open spec fn spec_plain_read(&self, address: u16) -> bool {
        self.spec_cart_cpu_claims(address) || address <= 0x1fff || (address >= 0x4000 && address != 0x4015
            && address != 0x4016 && address != 0x4017)
    }

    /// Reads one CPU address. The returned byte is exactly
    /// `spec_read_value` except at the controller ports, where it carries the
    /// polled button in bit 0; the state changes are confined to the device
    /// the address hits.
    #[verifier::rlimit(50)]
    pub fn cpu_read(&mut self, address: u16, read_only: bool) -> (r: u8)
        requires
            old(self).wf(),
        ensures
            final(self).wf(),
            cart_views_eq(old(self).cartdrige, final(self).cartdrige),
            final(self).cpu_ram == old(self).cpu_ram,
            final(self).dma == old(self).dma,
            spec_frame_counters_eq(old(self), final(self)),
            old(self).spec_plain_read(address) ==> *final(self) == *old(self),
            read_only ==> *final(self) == *old(self) && r == old(self).spec_read_value(address, true),
            !(address == 0x4016 || address == 0x4017) || read_only || old(self).spec_cart_cpu_claims(address) ==> r
                == old(self).spec_read_value(address, read_only),
            ({
                let claimed = old(self).spec_cart_cpu_claims(address);
                if claimed || address <= 0x1fff {
                    *final(self) == *old(self)
                } else if address <= 0x3fff {
                    let reg = (address % 8) as u16;
                    &&& final(self).controllers == old(self).controllers
                    &&& final(self).apu == old(self).apu
                    &&& if reg == 2 && !read_only {
                        final(self).ppu == (Ppu {
                            status: Status { val: old(self).ppu.status.val & !0x80 },
                            address_latch: 0,
                            ..old(self).ppu
                        })
                    } else if reg == 7 && !read_only {
                        final(self).ppu == (Ppu {
                            ppu_data_buffer: old(self).ppu.spec_ppu_mem_byte(
                                old(self).cartdrige,
                                old(self).ppu.vram_addr.val,
                            ),
                            vram_addr: Loopy {
                                val: vstd::wrapping::u16_specs::wrapping_add(
                                    old(self).ppu.vram_addr.val,
                                    if old(self).ppu.control.increment_mode() {
                                        32
                                    } else {
                                        1
                                    },
                                ),
                            },
                            ..old(self).ppu
                        })
                    } else {
                        final(self).ppu == old(self).ppu
                    }
                } else if (address == 0x4016 || address == 0x4017) && !read_only {
                    &&& r <= 1
                    &&& *final(self) == (BusDevices {
                        controllers: Controllers {
                            reading_button: old(self).controllers.reading_button.wrapping_add(1),
                            provider: old(self).controllers.provider,
                        },
                        ..*old(self)
                    })
                } else if address == 0x4015 && !read_only {
                    *final(self) == (BusDevices {
                        apu: (Apu { sequencer_interrupt_flag: false, ..old(self).apu }),
                        ..*old(self)
                    })
                } else {
                    *final(self) == *old(self)
                }
            }),
    {
        let mut data = 0u8;
        let claimed = match &mut self.cartdrige {
            Some(c) => c.cpu_read(address, &mut data),
            None => false,
        };
        if claimed {
            return data;
        }

        if address <= 0x1fff {
            data = self.cpu_ram[(address % 0x800) as usize];
        } else if address <= 0x3fff {
            let ppu = &mut self.ppu;
            data = ppu.read_ppu_register(&mut self.cartdrige, address % 8, read_only);
        } else if address == 0x4016 || address == 0x4017 {
            if !read_only {
                data = 0;
                self.controllers.read(address, &mut data);
            }
        } else if address == 0x4015 {
            if !read_only {
                self.apu.cpu_read(address, &mut data);
            }
        }

        data
    }

    /// Writes one CPU address. A claiming cartridge swallows it (a
    /// non-claiming cartridge may still re-bank itself); then mirrored work
    /// RAM; then the picture register ports; $4014 arms OAM DMA from the
    /// written page; $4016 strobes the controllers; the rest of $4000-$4017
    /// lands in the audio register file.
    #[verifier::rlimit(50)]
    pub fn cpu_write(&mut self, address: u16, data: u8)
        requires
            old(self).wf(),
        ensures
            final(self).wf(),
            (old(self).cartdrige is Some) <==> (final(self).cartdrige is Some),
            spec_frame_counters_eq(old(self), final(self)),
            ({
                let claimed = old(self).spec_cart_cpu_write_claims(address);
                if claimed {
                    &&& *final(self) == (BusDevices { cartdrige: final(self).cartdrige, ..*old(self) })
                } else {
                    &&& (address <= 0x1fff ==> {
                        &&& *final(self) == (BusDevices {
                            cpu_ram: final(self).cpu_ram,
                            cartdrige: final(self).cartdrige,
                            ..*old(self)
                        })
                        &&& final(self).cpu_ram@ == old(self).cpu_ram@.update((address % 0x800) as int, data)
                    })
                    &&& (address == 0x4014 ==> *final(self) == (BusDevices {
                        dma: (Dma { dma_page: data, dma_addr: 0, is_doing_dma: true, ..old(self).dma }),
                        cartdrige: final(self).cartdrige,
                        ..*old(self)
                    }))
                    &&& (address == 0x4016 ==> {
                        &&& *final(self) == (BusDevices {
                            controllers: final(self).controllers,
                            cartdrige: final(self).cartdrige,
                            ..*old(self)
                        })
                        &&& final(self).controllers.reading_button == if data & 0x01 == 0x01 {
                            0u8
                        } else {
                            old(self).controllers.reading_button
                        }
                    })
                    &&& ((0x4000 <= address <= 0x4017 && address != 0x4014 && address != 0x4016)
                        ==> *final(self) == (BusDevices {
                        apu: crate::apu::spec_apu_cpu_write(old(self).apu, address, data),
                        cartdrige: final(self).cartdrige,
                        ..*old(self)
                    }))
                    &&& (address > 0x4017 ==> *final(self) == (BusDevices {
                        cartdrige: final(self).cartdrige,
                        ..*old(self)
                    }))
                }
            }),
            (address < 0x8000 && !(0x2000 <= address <= 0x3fff) && !old(self).spec_cart_cpu_write_claims(address))
                ==> final(self).cartdrige == old(self).cartdrige,
            (!old(self).spec_cart_cpu_write_claims(address) && 0x2000 <= address <= 0x3fff) ==> final(self).cpu_ram
                == old(self).cpu_ram && final(self).apu == old(self).apu && final(self).dma == old(self).dma && final(self).controllers == old(self).controllers,
    {
        let claimed = match &mut self.cartdrige {
            Some(c) => c.cpu_write(address, data),
            None => false,
        };
        if claimed {
            return ;
        }

        if address <= 0x1fff {
            self.cpu_ram.set((address % 0x800) as usize, data);
        } else if address <= 0x3fff {
            let ppu = &mut self.ppu;
            ppu.write_ppu_register(&mut self.cartdrige, address % 8, data);
        } else if address == 0x4014 {
            self.dma.dma_page = data;
            self.dma.dma_addr = 0x00;
            self.dma.is_doing_dma = true;
        } else if address == 0x4016 {
            self.controllers.write(address, data);
        } else if 0x4000 <= address && address <= 0x4017 {
            self.apu.cpu_write(address, data);
        }
    }
}

/// Writing any work-RAM address and reading it back — through any of its
/// mirrors — returns the byte just written: the store lands at the mirrored
/// index and the load reads the same index, exactly as the contracts of
/// `cpu_write` and `cpu_read` dispatch them.
pub proof fn lemma_ram_round_trip(ram: Seq<u8>, a1: u16, a2: u16, data: u8)
    requires
        ram.len() == 2048,
        a1 <= 0x1fff,
        a2 <= 0x1fff,
        a1 % 0x800 == a2 % 0x800,
    ensures
        ram.update((a1 % 0x800) as int, data)[(a2 % 0x800) as int] == data,
{
}

/// The picture unit's frame counters and latched NMI agree between two bus
/// states: CPU port traffic never touches them.
pub open spec fn spec_frame_counters_eq<C: Cartdrige, P: InputProvider, O: PpuOutput>(
    a: &BusDevices<C, P, O>,
    b: &BusDevices<C, P, O>,
) -> bool {
    &&& a.ppu.scanline == b.ppu.scanline
    &&& a.ppu.cycle == b.ppu.cycle
    &&& a.ppu.frame_complete == b.ppu.frame_complete
    &&& a.ppu.send_nmi == b.ppu.send_nmi
}

/// Whether this tick's picture-unit step leaves an NMI request pending: one
/// was already latched, or this is the dot where vertical blank rises with
/// the NMI enable set.
pub open spec fn spec_nmi_fires<C: Cartdrige, P: InputProvider, O: PpuOutput>(d: &BusDevices<C, P, O>) -> bool {
    d.ppu.send_nmi || (d.ppu.scanline == 241 && d.ppu.cycle == 1 && d.ppu.control.enable_nmi())
}

/// Whether this tick's audio step leaves the frame interrupt line raised.
pub open spec fn spec_apu_slot_irq(a: Apu) -> bool {
    let a1 = if a.sequencer_divider + 12 >= 89490 {
        crate::apu::spec_apu_clock_sequencer(
            Apu { sequencer_divider: (a.sequencer_divider + 12 - 89490) as u32, ..a },
        )
    } else {
        Apu { sequencer_divider: (a.sequencer_divider + 12) as u32, ..a }
    };
    (a1.common2.val >> 6) & 0x01 == 0 && a1.sequencer_interrupt_flag
}

/// The whole machine: the CPU, everything else on the bus, and the master
/// clock that drives them in lock step.
pub struct Bus<C: Cartdrige, P: InputProvider, O: PpuOutput> {
    pub cpu: Cpu,
    pub devices: BusDevices<C, P, O>,
    pub master_clock_counter: u64,
}

impl<C: Cartdrige, P: InputProvider, O: PpuOutput> Bus<C, P, O> {
    pub open spec fn wf(&self) -> bool {
        &&& self.cpu.wf()
        &&& self.devices.wf()
    }

    /// Builds the machine around the given controller provider and frame
    /// sink, with the cartridge slot empty, and resets it.
    pub fn new(input_provider: P, graphical_output: O) -> (r: Bus<C, P, O>)
        ensures
            r.wf(),
            r.devices.cartdrige is None,
            r.master_clock_counter == 0,
            r.cpu.stack_pointer == 0xfd,
            r.cpu.rem_cycles == 8,
            r.cpu.pc == 0,
            r.cpu.a == 0,
            r.cpu.x == 0,
            r.cpu.y == 0,
            r.cpu.flags.val == 0x20,
            r.devices.dma.is_doing_dma == false,
            forall|i: int| 0 <= i < 2048 ==> r.devices.cpu_ram@[i] == 0,
    {
        let mut cpu_ram: Vec<u8> = Vec::new();
        let mut i: usize = 0;
        while i < 2048
            invariant
                cpu_ram@.len() == i,
                i <= 2048,
                forall|j: int| 0 <= j < i ==> cpu_ram@[j] == 0,
            decreases 2048 - i,
        {
            cpu_ram.push(0);
            i = i + 1;
        }
        let mut bus = Bus {
            cpu: Cpu::new(),
            devices: BusDevices {
                cpu_ram,
                ppu: Ppu::new(graphical_output),
                apu: Apu::new(),
                cartdrige: None,
                controllers: Controllers::new(input_provider),
                dma: Dma::new(),
            },
            master_clock_counter: 0,
        };

        bus.reset();

        bus
    }

    /// Reads one CPU address; see `BusDevices::cpu_read`.
    pub fn cpu_read(&mut self, address: u16, read_only: bool) -> (r: u8)
        requires
            old(self).wf(),
        ensures
            final(self).wf(),
            final(self).cpu == old(self).cpu,
            final(self).master_clock_counter == old(self).master_clock_counter,
            final(self).devices.cpu_ram == old(self).devices.cpu_ram,
            old(self).devices.spec_plain_read(address) ==> final(self).devices == old(self).devices,
            read_only ==> final(self).devices == old(self).devices && r == old(self).devices.spec_read_value(
                address,
                true,
            ),
            !(address == 0x4016 || address == 0x4017) || read_only || old(self).devices.spec_cart_cpu_claims(address)
                ==> r == old(self).devices.spec_read_value(address, read_only),
            ({
                let claimed = old(self).devices.spec_cart_cpu_claims(address);
                if claimed || address <= 0x1fff {
                    final(self).devices == old(self).devices
                } else if address <= 0x3fff {
                    let reg = (address % 8) as u16;
                    &&& final(self).devices.controllers == old(self).devices.controllers
                    &&& final(self).devices.apu == old(self).devices.apu
                    &&& if reg == 2 && !read_only {
                        final(self).devices.ppu == (Ppu {
                            status: Status { val: old(self).devices.ppu.status.val & !0x80 },
                            address_latch: 0,
                            ..old(self).devices.ppu
                        })
                    } else if reg == 7 && !read_only {
                        final(self).devices.ppu == (Ppu {
                            ppu_data_buffer: old(self).devices.ppu.spec_ppu_mem_byte(
                                old(self).devices.cartdrige,
                                old(self).devices.ppu.vram_addr.val,
                            ),
                            vram_addr: Loopy {
                                val: vstd::wrapping::u16_specs::wrapping_add(
                                    old(self).devices.ppu.vram_addr.val,
                                    if old(self).devices.ppu.control.increment_mode() {
                                        32
                                    } else {
                                        1
                                    },
                                ),
                            },
                            ..old(self).devices.ppu
                        })
                    } else {
                        final(self).devices.ppu == old(self).devices.ppu
                    }
                } else if (address == 0x4016 || address == 0x4017) && !read_only {
                    &&& r <= 1
                    &&& final(self).devices == (BusDevices {
                        controllers: Controllers {
                            reading_button: old(self).devices.controllers.reading_button.wrapping_add(1),
                            provider: old(self).devices.controllers.provider,
                        },
                        ..old(self).devices
                    })
                } else if address == 0x4015 && !read_only {
                    final(self).devices == (BusDevices {
                        apu: (Apu { sequencer_interrupt_flag: false, ..old(self).devices.apu }),
                        ..old(self).devices
                    })
                } else {
                    final(self).devices == old(self).devices
                }
            }),
    {
        self.devices.cpu_read(address, read_only)
    }

    /// Writes one CPU address; see `BusDevices::cpu_write`. A write to a
    /// mirrored work-RAM address (unclaimed by the cartridge) lands at the
    /// mirrored index and changes nothing else.
    pub fn cpu_write(&mut self, address: u16, data: u8)
        requires
            old(self).wf(),
        ensures
            final(self).wf(),
            final(self).cpu == old(self).cpu,
            final(self).master_clock_counter == old(self).master_clock_counter,
            (address <= 0x1fff && !old(self).devices.spec_cart_cpu_write_claims(address)) ==> *final(self) == (Bus {
                devices: (BusDevices {
                    cpu_ram: final(self).devices.cpu_ram,
                    ..old(self).devices
                }),
                ..*old(self)
            }) && final(self).devices.cpu_ram@ == old(self).devices.cpu_ram@.update((address % 0x800) as int, data),
            ({
                let claimed = old(self).devices.spec_cart_cpu_write_claims(address);
                if claimed {
                    &&& final(self).devices == (BusDevices { cartdrige: final(self).devices.cartdrige, ..old(self).devices })
                } else {
                    &&& (address <= 0x1fff ==> {
                        &&& final(self).devices == (BusDevices {
                            cpu_ram: final(self).devices.cpu_ram,
                            cartdrige: final(self).devices.cartdrige,
                            ..old(self).devices
                        })
                        &&& final(self).devices.cpu_ram@ == old(self).devices.cpu_ram@.update((address % 0x800) as int, data)
                    })
                    &&& (address == 0x4014 ==> final(self).devices == (BusDevices {
                        dma: (Dma { dma_page: data, dma_addr: 0, is_doing_dma: true, ..old(self).devices.dma }),
                        cartdrige: final(self).devices.cartdrige,
                        ..old(self).devices
                    }))
                    &&& (address == 0x4016 ==> {
                        &&& final(self).devices == (BusDevices {
                            controllers: final(self).devices.controllers,
                            cartdrige: final(self).devices.cartdrige,
                            ..old(self).devices
                        })
                        &&& final(self).devices.controllers.reading_button == if data & 0x01 == 0x01 {
                            0u8
                        } else {
                            old(self).devices.controllers.reading_button
                        }
                    })
                    &&& ((0x4000 <= address <= 0x4017 && address != 0x4014 && address != 0x4016)
                        ==> final(self).devices == (BusDevices {
                        apu: crate::apu::spec_apu_cpu_write(old(self).devices.apu, address, data),
                        cartdrige: final(self).devices.cartdrige,
                        ..old(self).devices
                    }))
                    &&& (address > 0x4017 ==> final(self).devices == (BusDevices {
                        cartdrige: final(self).devices.cartdrige,
                        ..old(self).devices
                    }))
                }
            }),
    {
        self.devices.cpu_write(address, data);
    }

    /// Binds a cartridge into the slot; it lives there from now on.
    pub fn load_cartdrige(&mut self, cart: C)
        requires
            old(self).wf(),
            cart.inv(),
        ensures
            final(self).wf(),
            *final(self) == (Bus {
                devices: (BusDevices { cartdrige: Some(cart), ..old(self).devices }),
                ..*old(self)
            }),
    {
        self.devices.cartdrige = Some(cart);
    }

    /// Advances the whole machine one master-clock tick: the picture unit
    /// always steps; every third tick either one DMA half-step runs (normal
    /// CPU stepping stays suspended) or the CPU steps, and the audio unit is
    /// clocked; a pending picture-unit NMI is then taken, and the master
    /// counter moves on.
    #[verifier::rlimit(100)]
    pub fn clock(&mut self)
        requires
            old(self).wf(),
        ensures
            final(self).wf(),
            final(self).master_clock_counter == vstd::wrapping::u64_specs::wrapping_add(
                old(self).master_clock_counter,
                1,
            ),
            final(self).devices.ppu.scanline == crate::ppu::spec_next_scanline(
                old(self).devices.ppu.scanline,
                old(self).devices.ppu.cycle,
            ),
            final(self).devices.ppu.cycle == crate::ppu::spec_next_cycle(
                old(self).devices.ppu.scanline,
                old(self).devices.ppu.cycle,
            ),
            final(self).devices.ppu.frame_complete == (old(self).devices.ppu.frame_complete || (old(self).devices.ppu.scanline == 260 && old(self).devices.ppu.cycle == 340)),
            final(self).devices.ppu.send_nmi == false,
            (old(self).master_clock_counter % 3 != 0 && spec_nmi_fires(&old(self).devices)) ==> final(self).cpu.stack_pointer == vstd::wrapping::u8_specs::wrapping_sub(old(self).cpu.stack_pointer, 3) && final(self).cpu.rem_cycles == 8 && final(self).cpu.flags.i(),
            (old(self).master_clock_counter % 3 == 0 && !old(self).devices.dma.is_doing_dma && !spec_nmi_fires(
                &old(self).devices,
            ) && !spec_apu_slot_irq(old(self).devices.apu) && old(self).cpu.rem_cycles > 0) ==> final(self).cpu
                == (Cpu { rem_cycles: (old(self).cpu.rem_cycles - 1) as i8, ..old(self).cpu }),
            (old(self).master_clock_counter % 3 != 0 && !spec_nmi_fires(&old(self).devices)) ==> final(self).cpu
                == old(self).cpu,
            (old(self).master_clock_counter % 3 == 0 && old(self).devices.dma.is_doing_dma && !spec_nmi_fires(
                &old(self).devices,
            ) && !spec_apu_slot_irq(old(self).devices.apu)) ==> final(self).cpu == old(self).cpu,
            (old(self).master_clock_counter % 3 == 0 && old(self).devices.dma.is_doing_dma && !spec_nmi_fires(
                &old(self).devices,
            ) && !spec_apu_slot_irq(old(self).devices.apu)) ==> final(self).devices.cpu_ram == old(self).devices.cpu_ram,
            (old(self).master_clock_counter % 3 == 0 && old(self).devices.dma.is_doing_dma
                && old(self).devices.dma.dma_dummy) ==> final(self).devices.dma == (Dma {
                dma_dummy: !(old(self).master_clock_counter % 2 == 1),
                ..old(self).devices.dma
            }) && final(self).devices.ppu.oam@ == old(self).devices.ppu.oam@,
            (old(self).master_clock_counter % 3 == 0 && old(self).devices.dma.is_doing_dma && !old(self).devices.dma.dma_dummy && old(self).master_clock_counter % 2 == 0) ==> ({
                let src = (old(self).devices.dma.dma_page * 256 + old(self).devices.dma.dma_addr) as u16;
                &&& final(self).devices.dma.dma_addr == old(self).devices.dma.dma_addr
                &&& final(self).devices.dma.is_doing_dma
                &&& !final(self).devices.dma.dma_dummy
                &&& final(self).devices.ppu.oam@ == old(self).devices.ppu.oam@
                &&& ((src <= 0x1fff && !old(self).devices.spec_cart_cpu_claims(src)) ==> final(self).devices.dma.dma_data == old(self).devices.cpu_ram@[(src % 0x800) as int])
            }),
            (old(self).master_clock_counter % 3 == 0 && old(self).devices.dma.is_doing_dma && !old(self).devices.dma.dma_dummy && old(self).master_clock_counter % 2 == 1) ==> ({
                &&& final(self).devices.ppu.oam@ == old(self).devices.ppu.oam@.update(
                    old(self).devices.dma.dma_addr as int,
                    old(self).devices.dma.dma_data,
                )
                &&& final(self).devices.dma.dma_addr == vstd::wrapping::u8_specs::wrapping_add(
                    old(self).devices.dma.dma_addr,
                    1,
                )
                &&& final(self).devices.dma.is_doing_dma == (old(self).devices.dma.dma_addr != 255)
                &&& final(self).devices.dma.dma_dummy == (old(self).devices.dma.dma_addr == 255)
            }),
    {
        let d = &mut self.devices;
        d.ppu.clock(&mut d.cartdrige);

        if self.master_clock_counter % 3 == 0 {
            if self.devices.dma.is_doing_dma {
                if self.devices.dma.dma_dummy {
                    if self.master_clock_counter % 2 == 1 {
                        self.devices.dma.dma_dummy = false;
                    }
                } else {
                    if self.master_clock_counter % 2 == 0 {
                        let src = (self.devices.dma.dma_page as u16) * 256 + (self.devices.dma.dma_addr as u16);
                        let v = self.devices.cpu_read(src, false);
                        self.devices.dma.dma_data = v;
                    } else {
                        let addr = self.devices.dma.dma_addr;
                        let data = self.devices.dma.dma_data;
                        self.devices.ppu.oam_write(addr, data);
                        self.devices.dma.dma_addr = self.devices.dma.dma_addr.wrapping_add(1);

                        if self.devices.dma.dma_addr == 0 {
                            self.devices.dma.dma_dummy = true;
                            self.devices.dma.is_doing_dma = false;
                        }
                    }
                }
            } else {
                self.cpu.clock(&mut self.devices);
            }

            self.devices.apu.clock_main(12);
            self.devices.apu.clock_cpu_clock();

            if self.devices.apu.is_raising_interrupt() {
                self.cpu.irq(&mut self.devices);
            }
        }

        let do_ppu_nmi = if self.devices.ppu.send_nmi {
            self.devices.ppu.send_nmi = false;
            true
        } else {
            false
        };
        if do_ppu_nmi {
            self.cpu.nmi(&mut self.devices);
        }

        self.master_clock_counter = self.master_clock_counter.wrapping_add(1);
    }

    /// Resets the CPU and the picture unit in place (memory survives) and
    /// rewinds the master clock.
    pub fn reset(&mut self)
        requires
            old(self).wf(),
        ensures
            final(self).wf(),
            final(self).master_clock_counter == 0,
            final(self).cpu.stack_pointer == 0xfd,
            final(self).cpu.a == 0,
            final(self).cpu.x == 0,
            final(self).cpu.y == 0,
            final(self).cpu.flags.val == 0x20,
            final(self).cpu.rem_cycles == 8,
            final(self).cpu.pc == (old(self).devices.spec_read_value(0xfffd, false) * 256 + old(self).devices.spec_read_value(0xfffc, false)) as u16,
            final(self).devices.cpu_ram == old(self).devices.cpu_ram,
            final(self).devices.ppu.scanline == 0,
            final(self).devices.ppu.cycle == 0,
            final(self).devices.ppu.status.val == 0,
            final(self).devices == (BusDevices { ppu: final(self).devices.ppu, ..old(self).devices }),
    {
        self.cpu.reset(&mut self.devices);
        self.devices.ppu.reset();
        self.master_clock_counter = 0;
    }
}

} // verus!
