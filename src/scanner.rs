use vstd::prelude::*;
use crate::frames::BROADCAST_MAC;
use crate::interface::DeviceInterface;
use crate::listener::PacketListener;
use crate::scanner_enums::{mode_text, Mode, PortStatus};
use crate::schedule::ScanSchedule;
use crate::summary::{
    count_of, count_status, decimal_text, ip_text, mac_text, pad_text, push_decimal, push_ip,
    push_mac, push_repeat, push_rows, repeat_text, rows_text,
};

verus! {

/// The configuration of one scan of `start_port..=end_port` on `target_ip`.
#[derive(Debug, Clone)]
pub struct PortScanner {
    pub device_interface: DeviceInterface,
    pub target_ip: [u8; 4],
    pub target_mac: [u8; 6],
    pub start_port: u16,
    pub end_port: u16,
    pub concurrency: usize,
    pub timeout: u64,
    pub mode: Mode,
}

/// The summary printed after a scan: configuration, one row per result in the
/// given order, and the count of each status.
pub open spec fn summary_text(s: PortScanner, results: Seq<(u16, PortStatus)>) -> Seq<char> {
    "\n"@ + repeat_text("="@, 30) + " Scan Summary "@ + repeat_text("="@, 30) + "\n"@
        + "Target IP   : "@ + ip_text(s.target_ip) + "\n"@
        + "Target MAC  : "@ + mac_text(s.target_mac) + "\n"@
        + "Scan mode   : "@ + mode_text(s.mode) + "\n"@
        + "Port range  : "@ + decimal_text(s.start_port as nat) + " - "@ + decimal_text(s.end_port as nat) + "\n"@
        + "Concurrency : "@ + decimal_text(s.concurrency as nat) + "\n"@
        + repeat_text("="@, 74) + "\n\n"@
        + pad_text("PORT"@, 12) + " STATUS\n"@
        + rows_text(results)
        + repeat_text("="@, 72) + "\n\n"@
        + "Results: Open: \x1b[32m"@ + decimal_text(count_status(results, PortStatus::Open))
        + "\x1b[0m | Closed: \x1b[31m"@ + decimal_text(count_status(results, PortStatus::Closed))
        + "\x1b[0m | Filtered: \x1b[33m"@ + decimal_text(count_status(results, PortStatus::Filtered))
        + "\x1b[0m | Open/Filtered: \x1b[35m"@ + decimal_text(count_status(results, PortStatus::OpenFiltered))
        + "\x1b[0m | Total: \x1b[36m"@ + decimal_text(results.len()) + "\x1b[0m\n"@
}

impl PortScanner {
    /// A scanner for `target_ip`; frames go to `resolved_mac`, or to the Ethernet
    /// broadcast address when the next hop's MAC could not be resolved.
    pub fn new(
        device_interface: DeviceInterface,
        target_ip: [u8; 4],
        resolved_mac: Option<[u8; 6]>,
        start_port: u16,
        end_port: u16,
        concurrency: usize,
        timeout: u64,
        mode: Mode,
    ) -> (r: Self)
        ensures
            r.device_interface == device_interface,
            r.target_ip == target_ip,
            r.target_mac == match resolved_mac {
                Some(m) => m,
                None => BROADCAST_MAC,
            },
            r.start_port == start_port,
            r.end_port == end_port,
            r.concurrency == concurrency,
            r.timeout == timeout,
            r.mode == mode,
    {
        let target_mac = match resolved_mac {
            Some(m) => m,
            None => BROADCAST_MAC,
        };
        PortScanner {
            device_interface,
            target_ip,
            target_mac,
            start_port,
            end_port,
            concurrency,
            timeout,
            mode,
        }
    }

    /// The listener filter for this scan.
    pub fn listener(&self) -> (r: PacketListener)
        ensures
            r.interface_ip == self.device_interface.ip,
            r.target_ip == self.target_ip,
            r.mode == self.mode,
    {
        PacketListener::new(self.device_interface.ip, self.target_ip, self.mode)
    }

    /// The schedule of this scan's ports under its concurrency bound.
    pub fn schedule(&self) -> (r: ScanSchedule)
        requires
            self.concurrency >= 1,
        ensures
            r.wf(),
            r.first() == self.start_port,
            r.last() == self.end_port,
            r.bound() == self.concurrency,
            r.launched() == 0,
            r.results() == Map::<u16, PortStatus>::empty(),
    {
        ScanSchedule::new(self.start_port, self.end_port, self.concurrency)
    }

    /// Renders the scan summary for `results`, listed in port order.
    pub fn scan_summary(&self, results: &Vec<(u16, PortStatus)>) -> (r: String)
        requires
            results@.len() <= 0x10000,
        ensures
            r@ == summary_text(*self, results@),
    {
        let mut s = String::from_str("\n");
        push_repeat(&mut s, "=", 30);
        s.append(" Scan Summary ");
        push_repeat(&mut s, "=", 30);
        s.append("\n");
        s.append("Target IP   : ");
        push_ip(&mut s, self.target_ip);
        s.append("\n");
        s.append("Target MAC  : ");
        push_mac(&mut s, self.target_mac);
        s.append("\n");
        s.append("Scan mode   : ");
        s.append(self.mode.label());
        s.append("\n");
        s.append("Port range  : ");
        push_decimal(&mut s, self.start_port as u64);
        s.append(" - ");
        push_decimal(&mut s, self.end_port as u64);
        s.append("\n");
        s.append("Concurrency : ");
        push_decimal(&mut s, self.concurrency as u64);
        s.append("\n");
        push_repeat(&mut s, "=", 74);
        s.append("\n\n");
        let header = String::from_str("PORT");
        crate::summary::push_padded(&mut s, &header, 12);
        s.append(" STATUS\n");
        push_rows(&mut s, results);
        push_repeat(&mut s, "=", 72);
        s.append("\n\n");
        s.append("Results: Open: \x1b[32m");
        push_decimal(&mut s, count_of(results, PortStatus::Open));
        s.append("\x1b[0m | Closed: \x1b[31m");
        push_decimal(&mut s, count_of(results, PortStatus::Closed));
        s.append("\x1b[0m | Filtered: \x1b[33m");
        push_decimal(&mut s, count_of(results, PortStatus::Filtered));
        s.append("\x1b[0m | Open/Filtered: \x1b[35m");
        push_decimal(&mut s, count_of(results, PortStatus::OpenFiltered));
        s.append("\x1b[0m | Total: \x1b[36m");
        push_decimal(&mut s, results.len() as u64);
        s.append("\x1b[0m\n");
        s
    }
}

/// Rendering the summary is a function of the scanner and the results alone: two
/// renderings of the same results are identical.
pub proof fn lemma_summary_deterministic(
    s: PortScanner,
    a: Seq<(u16, PortStatus)>,
    b: Seq<(u16, PortStatus)>,
)
    requires
        a == b,
    ensures
        summary_text(s, a) == summary_text(s, b),
{
}

} // verus!
