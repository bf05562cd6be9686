use chord_drums::midi_device::{MidiReadDevice, PollResp};

struct SilentDevice;

impl MidiReadDevice for SilentDevice {}

struct ChattyDevice {
    data: Vec<u8>,
    ready: bool,
}

impl MidiReadDevice for ChattyDevice {
    fn poll(&mut self) -> PollResp {
        if self.ready {
            PollResp::Ready
        } else {
            PollResp::Pass
        }
    }

    fn read_data(&mut self, buffer: &mut Vec<u8>, size: &mut usize) -> PollResp {
        buffer.clear();
        buffer.extend_from_slice(&self.data);
        *size = self.data.len();
        PollResp::Ready
    }
}

#[test]
fn default_device_reports_no_data() {
    let mut dev = SilentDevice;
    assert_eq!(dev.poll(), PollResp::Pass);
    let mut buffer = Vec::new();
    let mut size = 0usize;
    assert_eq!(dev.read(&mut buffer, &mut size), PollResp::Pass);
    assert_eq!(size, 0);
    assert!(buffer.is_empty());
}

#[test]
fn read_passes_when_poll_passes() {
    let mut dev = ChattyDevice { data: vec![0x09, 0x90, 60, 100], ready: false };
    let mut buffer = Vec::new();
    let mut size = 0usize;
    assert_eq!(dev.read(&mut buffer, &mut size), PollResp::Pass);
    assert_eq!(size, 0);
    assert!(buffer.is_empty());
}

#[test]
fn read_forwards_data_when_poll_is_ready() {
    let mut dev = ChattyDevice { data: vec![0x09, 0x90, 60, 100], ready: true };
    let mut buffer = Vec::new();
    let mut size = 0usize;
    assert_eq!(dev.read(&mut buffer, &mut size), PollResp::Ready);
    assert_eq!(size, 4);
    assert_eq!(buffer, vec![0x09, 0x90, 60, 100]);
}
