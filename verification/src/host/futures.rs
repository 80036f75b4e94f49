//! Completion of EHCI transfers and of the async advance doorbell.

use crate::ehci::{
    QTD_TOKEN_ACTIVE, QTD_TOKEN_BABBLE, QTD_TOKEN_BUFFER_ERR, QTD_TOKEN_ERROR_MASK,
    QTD_TOKEN_HALTED, QTD_TOKEN_MISSED_UFRAME, QTD_TOKEN_XACT_ERR,
};
use crate::host::controller::{ControllerView, ImxrtHostController, TRANSFER_INTERRUPTS};
use crate::host::statics::StaticsView;
use crate::host::types::{Poll, UsbError};
use crate::host::{NUM_PIPE_WAKERS, NUM_QTD, QH_POOL_LEN};
use crate::ral::usb;
use vstd::prelude::*;

verus! {

// ---------------------------------------------------------------------------
// EHCI error mapping
// ---------------------------------------------------------------------------

/// The error that a qTD token with error bits stands for.
pub open spec fn token_error(token: u32) -> UsbError {
    if token & QTD_TOKEN_HALTED != 0 {
        if token & QTD_TOKEN_BABBLE != 0 || token & QTD_TOKEN_BUFFER_ERR != 0 {
            UsbError::Overflow
        } else if token & QTD_TOKEN_XACT_ERR != 0 {
            UsbError::ProtocolError
        } else {
            // Halted with no other error bits set
            UsbError::Stall
        }
    } else if token & QTD_TOKEN_MISSED_UFRAME != 0 {
        UsbError::Timeout
    } else {
        UsbError::ProtocolError
    }
}

impl<'p> ImxrtHostController<'p> {
    /// Map EHCI qTD status bits to a `UsbError`.
    pub fn map_qtd_error(token: u32) -> (error: UsbError)
        ensures
            error == token_error(token),
    {
        if token & QTD_TOKEN_HALTED != 0 {
            if token & QTD_TOKEN_BABBLE != 0 {
                return UsbError::Overflow;
            }
            if token & QTD_TOKEN_BUFFER_ERR != 0 {
                return UsbError::Overflow;
            }
            if token & QTD_TOKEN_XACT_ERR != 0 {
                return UsbError::ProtocolError;
            }
            return UsbError::Stall;
        }
        if token & QTD_TOKEN_MISSED_UFRAME != 0 {
            return UsbError::Timeout;
        }
        UsbError::ProtocolError
    }

    /// Return a short string describing a `UsbError` variant (for logging).
    pub fn usb_error_str(e: &UsbError) -> (text: &'static str)
        ensures
            text@ == (match *e {
                UsbError::Stall => "Stall"@,
                UsbError::Timeout => "Timeout"@,
                UsbError::Overflow => "Overflow"@,
                UsbError::BitStuffError => "BitStuffError"@,
                UsbError::CrcError => "CrcError"@,
                UsbError::DataSeqError => "DataSeqError"@,
                UsbError::BufferTooSmall => "BufferTooSmall"@,
                UsbError::AllPipesInUse => "AllPipesInUse"@,
                UsbError::ProtocolError => "ProtocolError"@,
                UsbError::TooManyDevices => "TooManyDevices"@,
                UsbError::NoSuchEndpoint => "NoSuchEndpoint"@,
            }),
    {
        match e {
            UsbError::Stall => "Stall",
            UsbError::Timeout => "Timeout",
            UsbError::Overflow => "Overflow",
            UsbError::BitStuffError => "BitStuffError",
            UsbError::CrcError => "CrcError",
            UsbError::DataSeqError => "DataSeqError",
            UsbError::BufferTooSmall => "BufferTooSmall",
            UsbError::AllPipesInUse => "AllPipesInUse",
            UsbError::ProtocolError => "ProtocolError",
            UsbError::TooManyDevices => "TooManyDevices",
            UsbError::NoSuchEndpoint => "NoSuchEndpoint",
        }
    }
}

// ---------------------------------------------------------------------------
// TransferComplete: waits for a qTD chain to complete
// ---------------------------------------------------------------------------

/// Polls an EHCI qTD for completion.
///
/// Checks the status qTD's Active bit. When cleared by the controller,
/// the transfer is complete. Error bits are mapped to `UsbError`.
#[derive(Debug, Clone, Copy, PartialEq, Eq)]
pub struct TransferComplete {
    /// Pool index of the status (IOC) qTD.
    pub status_qtd_index: usize,
    /// Pool index of the data qTD, if there is one beside the status qTD.
    pub data_qtd_index: Option<usize>,
    /// Pool index of the QH.
    pub qh_index: usize,
    /// Which pipe waker to register with. 0 = control pipe; 1 and up = bulk/interrupt.
    pub waker_index: usize,
}

impl TransferComplete {
    /// Whether the indices are within the pools.
    pub open spec fn wf(self) -> bool {
        &&& self.status_qtd_index < NUM_QTD
        &&& self.data_qtd_index matches Some(d) ==> d < NUM_QTD
        &&& self.qh_index < QH_POOL_LEN
        &&& self.waker_index < NUM_PIPE_WAKERS
    }

    /// What has become of the transfer.
    ///
    /// While the status qTD is active, the transfer has failed if the QH overlay is halted
    /// (the controller stopped at a qTD before the status qTD, and will never reach it) or
    /// else the data qTD is halted. Once the status qTD is inactive, the transfer has failed
    /// if it or else the data qTD shows an error.
    pub open spec fn outcome(self, s: StaticsView) -> Poll<Result<(), UsbError>> {
        let token = s.qtd[self.status_qtd_index as int].token@;
        let overlay = s.qh[self.qh_index as int].overlay_token@;
        let data = match self.data_qtd_index {
            Some(d) => s.qtd[d as int].token@,
            None => 0,
        };
        if token & QTD_TOKEN_ACTIVE != 0 {
            if overlay & QTD_TOKEN_HALTED != 0 {
                Poll::Ready(Err(token_error(overlay)))
            } else if self.data_qtd_index is Some && data & QTD_TOKEN_HALTED != 0 {
                Poll::Ready(Err(token_error(data)))
            } else {
                Poll::Pending
            }
        } else if token & QTD_TOKEN_ERROR_MASK != 0 {
            Poll::Ready(Err(token_error(token)))
        } else if self.data_qtd_index is Some && data & QTD_TOKEN_ERROR_MASK != 0 {
            Poll::Ready(Err(token_error(data)))
        } else {
            Poll::Ready(Ok(()))
        }
    }

    /// What a poll reports, and the controller after it.
    pub open spec fn polled(self, hc: ControllerView) -> (
        Poll<Result<(), UsbError>>,
        ControllerView,
    ) {
        let outcome = self.outcome(hc.statics);
        (
            outcome,
            if outcome is Pending {
                hc.set_bits(usb::Reg::Usbintr, TRANSFER_INTERRUPTS)
            } else {
                hc
            },
        )
    }

    /// After the cache maintenance that makes hardware updates visible.
    pub open spec fn prepared(self, hc: ControllerView) -> ControllerView {
        let status = hc.clean_qtd(self.status_qtd_index as int);
        let data = match self.data_qtd_index {
            Some(d) => status.clean_qtd(d as int),
            None => status,
        };
        data.clean_qh(self.qh_index as int)
    }

    /// Queue the cache maintenance that must precede loading the images for `poll`.
    pub fn prepare(&self, hc: &mut ImxrtHostController<'_>)
        requires
            old(hc).wf(),
            self.wf(),
        ensures
            final(hc).wf(),
            final(hc)@ == self.prepared(old(hc)@),
    {
        hc.cache_clean_qtd(self.status_qtd_index);
        if let Some(d) = self.data_qtd_index {
            hc.cache_clean_qtd(d);
        }
        hc.cache_clean_qh(self.qh_index);
    }

    /// Check whether the transfer is complete. If it is not, the transfer completion
    /// interrupts are enabled again.
    ///
    /// The waker must be registered, and the images loaded, before this is called.
    pub fn poll(&self, hc: &mut ImxrtHostController<'_>) -> (poll: Poll<Result<(), UsbError>>)
        requires
            old(hc).wf(),
            self.wf(),
        ensures
            final(hc).wf(),
            poll == self.outcome(old(hc)@.statics),
            (poll, final(hc)@) == self.polled(old(hc)@),
            final(hc)@ == (if poll is Pending {
                old(hc)@.set_bits(usb::Reg::Usbintr, TRANSFER_INTERRUPTS)
            } else {
                old(hc)@
            }),
    {
        let token: u32 = hc.statics.qtd_pool[self.status_qtd_index].token.read();
        if token & QTD_TOKEN_ACTIVE != 0 {
            // Still active: check if the QH overlay is halted.
            //
            // When the EHCI controller halts a qTD (e.g. setup phase got no
            // response from a disconnected device, CERR exhausted), it copies
            // the halted qTD's token into the QH overlay and stops advancing
            // the chain. The status qTD (last in the chain) remains Active
            // because the controller never reached it.
            let overlay: u32 = hc.statics.qh_pool[self.qh_index].overlay_token.read();
            if overlay & QTD_TOKEN_HALTED != 0 {
                return Poll::Ready(Err(ImxrtHostController::map_qtd_error(overlay)));
            }
            // Also check if data qTD has errored (early exit)
            if let Some(d) = self.data_qtd_index {
                let data_token: u32 = hc.statics.qtd_pool[d].token.read();
                if data_token & QTD_TOKEN_HALTED != 0 {
                    return Poll::Ready(Err(ImxrtHostController::map_qtd_error(data_token)));
                }
            }
            hc.reenable_transfer_interrupts();
            return Poll::Pending;
        }
        // Transfer complete: check for errors
        if token & QTD_TOKEN_ERROR_MASK != 0 {
            return Poll::Ready(Err(ImxrtHostController::map_qtd_error(token)));
        }
        // Also check the data qTD if present
        if let Some(d) = self.data_qtd_index {
            let data_token: u32 = hc.statics.qtd_pool[d].token.read();
            if data_token & QTD_TOKEN_ERROR_MASK != 0 {
                return Poll::Ready(Err(ImxrtHostController::map_qtd_error(data_token)));
            }
        }
        Poll::Ready(Ok(()))
    }
}

// ---------------------------------------------------------------------------
// AsyncAdvanceWait: waits for the async advance doorbell
// ---------------------------------------------------------------------------

/// Waits for the EHCI async advance doorbell to be acknowledged.
///
/// After unlinking a QH from the async schedule, the caller rings the doorbell
/// (sets USBCMD.IAA) and waits for USBSTS.AAI.
#[derive(Debug, Clone, Copy, PartialEq, Eq)]
pub struct AsyncAdvanceWait;

impl AsyncAdvanceWait {
    /// Whether the doorbell was acknowledged, and the controller after looking.
    pub open spec fn polled(hc: ControllerView) -> (Poll<()>, ControllerView) {
        if hc.usb.reg(usb::Reg::Usbsts) & usb::USBSTS_AAI != 0 {
            (Poll::Ready(()), hc.write(usb::Reg::Usbsts, usb::USBSTS_AAI))
        } else {
            (Poll::Pending, hc.set_bits(usb::Reg::Usbintr, usb::USBINTR_AAE))
        }
    }

    /// Check whether the doorbell was acknowledged, and clear the acknowledgement. If it was
    /// not, the async advance interrupt is enabled again.
    ///
    /// The waker must be registered, and the register image loaded, before this is called.
    pub fn poll(&self, hc: &mut ImxrtHostController<'_>) -> (poll: Poll<()>)
        requires
            old(hc).wf(),
        ensures
            final(hc).wf(),
            (poll, final(hc)@) == Self::polled(old(hc)@),
            if old(hc)@.usb.reg(usb::Reg::Usbsts) & usb::USBSTS_AAI != 0 {
                &&& poll == Poll::Ready(())
                &&& final(hc)@ == old(hc)@.write(usb::Reg::Usbsts, usb::USBSTS_AAI)
            } else {
                &&& poll is Pending
                &&& final(hc)@ == old(hc)@.set_bits(usb::Reg::Usbintr, usb::USBINTR_AAE)
            },
    {
        let status: u32 = hc.usb.read(usb::Reg::Usbsts);
        if status & usb::USBSTS_AAI != 0 {
            // Clear it (W1C)
            hc.usb.write(usb::Reg::Usbsts, usb::USBSTS_AAI);
            return Poll::Ready(());
        }
        hc.reenable_async_advance_interrupt();
        Poll::Pending
    }
}

} // verus!
