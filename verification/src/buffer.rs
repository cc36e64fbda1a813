//! The backing structure for the ESB interface.
//!
//! The buffer aggregates everything that the application context, the radio
//! interrupt and the timer interrupt exchange: the two framed packet queues
//! and the interrupt pending flags. Each driver entry point borrows the
//! buffer for the duration of its critical section, which makes the sharing
//! between the contexts explicit.

use vstd::prelude::*;

use crate::app::Addresses;
use crate::app::EsbApp;
use crate::irq::Disabled;
use crate::irq::EsbIrq;
use crate::irq::IrqTimer;
use crate::peripherals::EsbRadio;
use crate::peripherals::EsbTimer;
use crate::peripherals::RadioDevice;
use crate::queue::FramedQueue;
use crate::Config;
use crate::Error;

use core::marker::PhantomData;

verus! {

/// Storage shared by the [`EsbApp`] and [`EsbIrq`] interfaces: the two
/// framed queues, the flag the timer interrupt uses to signal the radio
/// interrupt, and the pending state of the radio interrupt line.
pub struct EsbBuffer {
    /// Packets travelling from the application to the radio.
    pub app_to_radio: FramedQueue,
    /// Packets travelling from the radio to the application.
    pub radio_to_app: FramedQueue,
    /// Set by the timer interrupt to tell the radio interrupt that a timeout
    /// fired.
    pub timer_flag: bool,
    /// Whether the radio interrupt line is pended.
    pub radio_pending: bool,
    /// Whether the buffer has already been split into its handles.
    pub split: bool,
}

impl EsbBuffer {
    pub open spec fn wf(&self) -> bool {
        &&& self.app_to_radio.wf()
        &&& self.radio_to_app.wf()
    }

    /// Creates a backing structure whose outgoing and incoming queues hold
    /// the given number of bytes of packets, headers included.
    pub fn new(outgoing_capacity: usize, incoming_capacity: usize) -> (r: Self)
        ensures
            r.wf(),
            r.app_to_radio@ =~= Seq::<Seq<u8>>::empty(),
            r.radio_to_app@ =~= Seq::<Seq<u8>>::empty(),
            !r.app_to_radio.write_in_progress(),
            !r.radio_to_app.write_in_progress(),
            r.app_to_radio.spec_capacity() == outgoing_capacity,
            r.radio_to_app.spec_capacity() == incoming_capacity,
            !r.timer_flag,
            !r.radio_pending,
            !r.split,
    {
        EsbBuffer {
            app_to_radio: FramedQueue::new(outgoing_capacity),
            radio_to_app: FramedQueue::new(incoming_capacity),
            timer_flag: false,
            radio_pending: false,
            split: false,
        }
    }

    /// Attempts to split the buffer into its three handles: the
    /// application-side interface, the radio-interrupt interface and the
    /// timer-interrupt handle. The radio and the timer are initialized and
    /// the driver starts out disabled.
    ///
    /// This function succeeds only once: a second call returns
    /// [`Error::AlreadySplit`].
    pub fn try_split<T: EsbTimer, D: RadioDevice>(
        &mut self,
        timer: T,
        radio: &mut D,
        addresses: Addresses,
        config: Config,
    ) -> (r: Result<(EsbApp, EsbIrq<T, Disabled>, IrqTimer<T>), Error>)
        requires
            old(self).wf(),
            config.valid(),
            addresses.wf(),
        ensures
            final(self).wf(),
            r is Ok <==> !old(self).split,
            old(self).split ==> r is Err && r->Err_0 == Error::AlreadySplit && *final(self)
                == *old(self) && *final(radio) == *old(radio),
            !old(self).split ==> {
                let (app, irq, _) = r->Ok_0;
                &&& *final(self) == (EsbBuffer { timer_flag: false, split: true, ..*old(self) })
                &&& app.maximum_payload == config.maximum_payload_size
                &&& app.wf()
                &&& irq.radio.wf()
                &&& irq.radio.tx_grant is None
                &&& irq.radio.rx_grant is None
                &&& irq.attempts == 0
                &&& irq.config == config
                &&& irq.addresses == addresses
                &&& final(radio).max_payload() == config.maximum_payload_size
                &&& !final(radio).short_rxen()
                &&& !final(radio).short_txen()
                &&& !final(radio).irq_disabled()
                &&& !final(radio).disabled_event()
            },
    {
        if self.split {
            return Err(Error::AlreadySplit);
        }
        self.split = true;
        // Clear the timer flag.
        self.timer_flag = false;

        let app = EsbApp { maximum_payload: config.maximum_payload_size };

        let mut irq = EsbIrq {
            timer,
            radio: EsbRadio::new(),
            state: Disabled,
            addresses,
            attempts: 0,
            config,
        };

        let irq_timer = IrqTimer { _timer: PhantomData };

        irq.radio.init(radio, irq.config.maximum_payload_size, irq.config.tx_power, &irq.addresses);
        irq.timer.init();

        Ok((app, irq, irq_timer))
    }
}

} // verus!
