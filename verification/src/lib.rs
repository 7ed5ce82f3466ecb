//! Verified core logic of the TGOSKits operating-system components: the SD
//! host controller command pipeline and its block adapter, the emulated
//! local APIC, the block runtime's scheduling and chunked transfers, the
//! terminal line discipline, process signals, interrupt notification and a
//! set of device and system-call decoders.
use vstd::prelude::*;

pub mod errno;

pub mod sdmmc;
pub mod sdhci_regs;
pub mod sdhci_irq;
pub mod sdhci;
pub mod sdmmc_rdif;
pub mod cvsd;

pub mod vmx;
pub mod vlapic;

pub mod irq_notify;
pub mod task_ops;
pub mod block_runtime;
pub mod block_submit;
pub mod dma;

pub mod tty;
pub mod ldisc;
pub mod signal;
pub mod prctl;
pub mod membarrier;
pub mod cmsg;

pub mod cvi_mailbox;
pub mod cvi_yuv;
pub mod camera;
pub mod evdev;
pub mod rtc;
pub mod display;
