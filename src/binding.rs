//! The peripheral module's function table: the entry points it must export,
//! by symbol name, and which of them is the first left unresolved.
use vstd::prelude::*;

verus! {

/// Number of entry points the module must export.
pub const ENTRY_POINT_COUNT: usize = 13;

/// The entry points of the peripheral module, in binding order.
#[derive(Clone, Copy, Debug, PartialEq, Eq, Structural)]
pub enum EntryPoint {
    Setup,
    RunLoop,
    SignalVblank,
    CopyFramebuffer,
    SetStartupScreenMode,
    ByteIn,
    ByteOut,
    InjectKeyboard,
    InjectMouse,
    SetDebugLogging,
    GetAudioSamples,
    DumpMemoryStats,
    Shutdown,
}

/// The symbol each entry point is exported under.
pub open spec fn symbol_of(e: EntryPoint) -> Seq<char> {
    match e {
        EntryPoint::Setup => "vdp_setup"@,
        EntryPoint::RunLoop => "vdp_loop"@,
        EntryPoint::SignalVblank => "signal_vblank"@,
        EntryPoint::CopyFramebuffer => "copyVgaFramebuffer"@,
        EntryPoint::SetStartupScreenMode => "set_startup_screen_mode"@,
        EntryPoint::ByteIn => "z80_send_to_vdp"@,
        EntryPoint::ByteOut => "z80_recv_from_vdp"@,
        EntryPoint::InjectKeyboard => "sendHostKbEventToFabgl"@,
        EntryPoint::InjectMouse => "sendHostMouseEventToFabgl"@,
        EntryPoint::SetDebugLogging => "setVdpDebugLogging"@,
        EntryPoint::GetAudioSamples => "getAudioSamples"@,
        EntryPoint::DumpMemoryStats => "dump_vdp_mem_stats"@,
        EntryPoint::Shutdown => "vdp_shutdown"@,
    }
}

/// The entry points in binding order.
pub open spec fn entry_at(i: int) -> EntryPoint {
    if i == 0 {
        EntryPoint::Setup
    } else if i == 1 {
        EntryPoint::RunLoop
    } else if i == 2 {
        EntryPoint::SignalVblank
    } else if i == 3 {
        EntryPoint::CopyFramebuffer
    } else if i == 4 {
        EntryPoint::SetStartupScreenMode
    } else if i == 5 {
        EntryPoint::ByteIn
    } else if i == 6 {
        EntryPoint::ByteOut
    } else if i == 7 {
        EntryPoint::InjectKeyboard
    } else if i == 8 {
        EntryPoint::InjectMouse
    } else if i == 9 {
        EntryPoint::SetDebugLogging
    } else if i == 10 {
        EntryPoint::GetAudioSamples
    } else if i == 11 {
        EntryPoint::DumpMemoryStats
    } else {
        EntryPoint::Shutdown
    }
}

impl EntryPoint {
    /// The entry point at position `i` of the binding order.
    pub fn at(i: usize) -> (r: EntryPoint)
        requires
            i < ENTRY_POINT_COUNT,
        ensures
            r == entry_at(i as int),
    {
        if i == 0 {
            EntryPoint::Setup
        } else if i == 1 {
            EntryPoint::RunLoop
        } else if i == 2 {
            EntryPoint::SignalVblank
        } else if i == 3 {
            EntryPoint::CopyFramebuffer
        } else if i == 4 {
            EntryPoint::SetStartupScreenMode
        } else if i == 5 {
            EntryPoint::ByteIn
        } else if i == 6 {
            EntryPoint::ByteOut
        } else if i == 7 {
            EntryPoint::InjectKeyboard
        } else if i == 8 {
            EntryPoint::InjectMouse
        } else if i == 9 {
            EntryPoint::SetDebugLogging
        } else if i == 10 {
            EntryPoint::GetAudioSamples
        } else if i == 11 {
            EntryPoint::DumpMemoryStats
        } else {
            EntryPoint::Shutdown
        }
    }

    /// The symbol the module exports this entry point under.
    pub fn symbol(&self) -> (r: &'static str)
        ensures
            r@ == symbol_of(*self),
    {
        match self {
            EntryPoint::Setup => "vdp_setup",
            EntryPoint::RunLoop => "vdp_loop",
            EntryPoint::SignalVblank => "signal_vblank",
            EntryPoint::CopyFramebuffer => "copyVgaFramebuffer",
            EntryPoint::SetStartupScreenMode => "set_startup_screen_mode",
            EntryPoint::ByteIn => "z80_send_to_vdp",
            EntryPoint::ByteOut => "z80_recv_from_vdp",
            EntryPoint::InjectKeyboard => "sendHostKbEventToFabgl",
            EntryPoint::InjectMouse => "sendHostMouseEventToFabgl",
            EntryPoint::SetDebugLogging => "setVdpDebugLogging",
            EntryPoint::GetAudioSamples => "getAudioSamples",
            EntryPoint::DumpMemoryStats => "dump_vdp_mem_stats",
            EntryPoint::Shutdown => "vdp_shutdown",
        }
    }
}

/// Given, for each entry point in binding order, whether its symbol was
/// resolved, names the first one that was not. `None` means the binding is
/// complete and the module may be used.
pub fn first_missing(resolved: &[bool]) -> (r: Option<EntryPoint>)
    requires
        resolved@.len() == ENTRY_POINT_COUNT,
    ensures
        r is None <==> forall|i: int| 0 <= i < ENTRY_POINT_COUNT ==> resolved@[i],
        r is Some ==> exists|i: int|
            0 <= i < ENTRY_POINT_COUNT && !resolved@[i] && r == Some(entry_at(i)) && forall|j: int|
                0 <= j < i ==> resolved@[j],
{
    let mut i: usize = 0;
    while i < ENTRY_POINT_COUNT
        invariant
            i <= ENTRY_POINT_COUNT,
            resolved@.len() == ENTRY_POINT_COUNT,
            forall|j: int| 0 <= j < i ==> resolved@[j],
        decreases ENTRY_POINT_COUNT - i,
    {
        if !resolved[i] {
            return Some(EntryPoint::at(i));
        }
        i = i + 1;
    }
    None
}

} // verus!
