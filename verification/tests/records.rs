use camrig::camera::{BufferDescriptor, Format, Reply, Request};
use camrig::codes::{decompose, V4L2_PIX_FMT_MJPEG};
use camrig::notice::ByteOrder;
use camrig::records::{decode_buffer, decode_format, put_word, put_zeros};

const REQUESTS: [Request; 8] = [
    Request::QueryCapability,
    Request::SetFormat { pixelformat: 0x4750_4a4d, width: 0, height: 0 },
    Request::RequestBuffers { count: 1 },
    Request::QueryBuffer { index: 0 },
    Request::Enqueue { index: 0 },
    Request::Dequeue { index: 0 },
    Request::StreamOn,
    Request::StreamOff,
];

#[test]
fn put_word_in_both_orders() {
    let mut bytes = vec![9u8];
    put_word(&mut bytes, 0x0102_0304, ByteOrder::Little);
    assert_eq!(bytes, vec![9, 4, 3, 2, 1]);
    put_word(&mut bytes, 0x0102_0304, ByteOrder::Big);
    assert_eq!(bytes, vec![9, 4, 3, 2, 1, 1, 2, 3, 4]);
    let mut bytes = Vec::new();
    put_word(&mut bytes, u32::MAX, ByteOrder::Little);
    put_word(&mut bytes, 0, ByteOrder::Big);
    assert_eq!(bytes, vec![255, 255, 255, 255, 0, 0, 0, 0]);
}

#[test]
fn put_zeros_appends() {
    let mut bytes = vec![7u8];
    put_zeros(&mut bytes, 0);
    assert_eq!(bytes, vec![7]);
    put_zeros(&mut bytes, 3);
    assert_eq!(bytes, vec![7, 0, 0, 0]);
}

#[test]
fn payload_is_as_long_as_the_code_says() {
    for request in REQUESTS {
        for order in [ByteOrder::Little, ByteOrder::Big] {
            let payload = request.payload(order);
            assert_eq!(payload.len() as u32, decompose(request.code()).size);
        }
    }
    assert_eq!(Request::QueryCapability.payload(ByteOrder::Little).len(), 104);
    assert_eq!(REQUESTS[1].payload(ByteOrder::Little).len(), 208);
    assert_eq!(REQUESTS[2].payload(ByteOrder::Little).len(), 20);
    assert_eq!(REQUESTS[3].payload(ByteOrder::Little).len(), 88);
    assert_eq!(REQUESTS[6].payload(ByteOrder::Little).len(), 4);
}

#[test]
fn capability_payload_is_blank() {
    assert_eq!(Request::QueryCapability.payload(ByteOrder::Big), vec![0u8; 104]);
}

#[test]
fn format_payload_layout() {
    let request =
        Request::SetFormat { pixelformat: V4L2_PIX_FMT_MJPEG, width: 0x0280, height: 0x01e0 };
    let mut expected = vec![0u8; 208];
    expected[0] = 1;
    expected[8] = 0x80;
    expected[9] = 0x02;
    expected[12] = 0xe0;
    expected[13] = 0x01;
    expected[16..20].copy_from_slice(b"MJPG");
    expected[20] = 1;
    assert_eq!(request.payload(ByteOrder::Little), expected);
    let mut expected = vec![0u8; 208];
    expected[3] = 1;
    expected[10] = 0x02;
    expected[11] = 0x80;
    expected[14] = 0x01;
    expected[15] = 0xe0;
    expected[16..20].copy_from_slice(b"GPJM");
    expected[23] = 1;
    assert_eq!(request.payload(ByteOrder::Big), expected);
}

#[test]
fn request_buffers_payload_layout() {
    let payload = Request::RequestBuffers { count: 1 }.payload(ByteOrder::Little);
    assert_eq!(payload, vec![1, 0, 0, 0, 1, 0, 0, 0, 1, 0, 0, 0, 0, 0, 0, 0, 0, 0, 0, 0]);
    let payload = Request::RequestBuffers { count: 0x0a0b }.payload(ByteOrder::Big);
    assert_eq!(payload, vec![0, 0, 0x0a, 0x0b, 0, 0, 0, 1, 0, 0, 0, 1, 0, 0, 0, 0, 0, 0, 0, 0]);
}

#[test]
fn buffer_payload_layout() {
    let mut expected = vec![0u8; 88];
    expected[0] = 5;
    expected[4] = 1;
    expected[60] = 1;
    for request in [
        Request::QueryBuffer { index: 5 },
        Request::Enqueue { index: 5 },
        Request::Dequeue { index: 5 },
    ] {
        assert_eq!(request.payload(ByteOrder::Little), expected);
    }
}

#[test]
fn stream_payload_is_the_buffer_type() {
    assert_eq!(Request::StreamOn.payload(ByteOrder::Little), vec![1, 0, 0, 0]);
    assert_eq!(Request::StreamOff.payload(ByteOrder::Big), vec![0, 0, 0, 1]);
}

#[test]
fn decode_format_reads_the_drivers_choice() {
    let mut bytes = Request::SetFormat { pixelformat: 1, width: 0, height: 0 }
        .payload(ByteOrder::Little);
    assert_eq!(
        decode_format(&bytes, ByteOrder::Little),
        Some(Format { width: 0, height: 0, stride: 0, size: 0 })
    );
    bytes[8..12].copy_from_slice(&1280u32.to_le_bytes());
    bytes[12..16].copy_from_slice(&720u32.to_le_bytes());
    bytes[24..28].copy_from_slice(&2560u32.to_le_bytes());
    bytes[28..32].copy_from_slice(&1_843_200u32.to_le_bytes());
    assert_eq!(
        decode_format(&bytes, ByteOrder::Little),
        Some(Format { width: 1280, height: 720, stride: 2560, size: 1_843_200 })
    );
    assert_eq!(decode_format(&bytes[..207], ByteOrder::Little), None);
    assert_eq!(decode_format(&[], ByteOrder::Big), None);
}

#[test]
fn decode_buffer_reads_the_description() {
    let mut bytes = Request::QueryBuffer { index: 2 }.payload(ByteOrder::Big);
    assert_eq!(
        decode_buffer(&bytes, ByteOrder::Big),
        Some(BufferDescriptor { index: 2, length: 0, offset: 0 })
    );
    bytes[64..68].copy_from_slice(&4096u32.to_be_bytes());
    bytes[72..76].copy_from_slice(&614_400u32.to_be_bytes());
    assert_eq!(
        decode_buffer(&bytes, ByteOrder::Big),
        Some(BufferDescriptor { index: 2, length: 614_400, offset: 4096 })
    );
    assert_eq!(decode_buffer(&bytes[..87], ByteOrder::Big), None);
}

#[test]
fn reply_by_request() {
    let order = ByteOrder::Little;
    let format = Request::SetFormat { pixelformat: 1, width: 3, height: 4 };
    assert_eq!(
        format.reply(&format.payload(order), order),
        Some(Reply::Format(Format { width: 3, height: 4, stride: 0, size: 0 }))
    );
    assert_eq!(format.reply(&[0u8; 100], order), None);
    let query = Request::QueryBuffer { index: 6 };
    assert_eq!(
        query.reply(&query.payload(order), order),
        Some(Reply::Buffer(BufferDescriptor { index: 6, length: 0, offset: 0 }))
    );
    assert_eq!(query.reply(&[], order), None);
    for request in [
        Request::QueryCapability,
        Request::RequestBuffers { count: 1 },
        Request::Enqueue { index: 0 },
        Request::Dequeue { index: 0 },
        Request::StreamOn,
        Request::StreamOff,
    ] {
        assert_eq!(request.reply(&[], order), Some(Reply::Done));
    }
}
