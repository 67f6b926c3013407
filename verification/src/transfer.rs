use vstd::prelude::*;

verus! {

/// Error of a completed transfer.
#[derive(Debug, Clone, Copy, PartialEq, Eq, Structural)]
pub enum TransferError {
    /// The transfer was cancelled.
    Cancelled,
    /// The endpoint returned a STALL handshake.
    Stall,
    /// The device was disconnected.
    Disconnected,
    /// Any other error.
    Unknown,
}

/// Status of a finished WebUSB transfer (the `USBTransferStatus` enumeration
/// of the WebUSB API).
#[derive(Debug, Clone, Copy, PartialEq, Eq, Structural)]
pub enum UsbTransferStatus {
    /// The transfer completed (`"ok"`).
    Completed,
    /// The endpoint stalled (`"stall"`).
    Stall,
    /// The device sent more data than requested (`"babble"`).
    Babble,
}

/// Maps the status of a WebUSB transfer to the library's transfer result.
pub fn web_to_nusb_status(status: UsbTransferStatus) -> (r: Result<(), TransferError>)
    ensures
        status == UsbTransferStatus::Completed <==> r == Ok::<(), TransferError>(()),
        status == UsbTransferStatus::Stall <==> r == Err::<(), TransferError>(TransferError::Stall),
        status == UsbTransferStatus::Babble <==> r == Err::<(), TransferError>(
            TransferError::Unknown,
        ),
{
    match status {
        UsbTransferStatus::Completed => Ok(()),
        UsbTransferStatus::Stall => Err(TransferError::Stall),
        UsbTransferStatus::Babble => Err(TransferError::Unknown),
    }
}

/// Kind of an endpoint, from its descriptor's `bmAttributes`.
#[derive(Debug, Clone, Copy, PartialEq, Eq, Structural)]
pub enum EndpointType {
    /// Control endpoint.
    Control,
    /// Isochronous endpoint.
    Isochronous,
    /// Bulk endpoint.
    Bulk,
    /// Interrupt endpoint.
    Interrupt,
}

/// Type of a control request (bits 5..6 of `bmRequestType`).
#[derive(Debug, Clone, Copy, PartialEq, Eq, Structural)]
pub enum ControlType {
    /// Request defined by the USB standard.
    Standard,
    /// Request defined by a device class.
    Class,
    /// Vendor-specific request.
    Vendor,
}

/// Recipient of a control request (bits 0..4 of `bmRequestType`).
#[derive(Debug, Clone, Copy, PartialEq, Eq, Structural)]
pub enum Recipient {
    /// The request is for the whole device.
    Device,
    /// The request is for an interface.
    Interface,
    /// The request is for an endpoint.
    Endpoint,
    /// Other recipient.
    Other,
}

/// SETUP packet of a control transfer.
#[derive(Debug, Clone, Copy, PartialEq, Eq, Structural)]
pub struct Control {
    /// Request type.
    pub control_type: ControlType,
    /// Request recipient.
    pub recipient: Recipient,
    /// `bRequest`.
    pub request: u8,
    /// `wValue`.
    pub value: u16,
    /// `wIndex`.
    pub index: u16,
}

/// Buffer for an IN transfer: room for the number of bytes requested.
pub struct RequestBuffer {
    buf: Vec<u8>,
    requested: usize,
}

impl RequestBuffer {
    /// An empty buffer asking for `len` bytes.
    pub fn new(len: usize) -> (r: Self)
        ensures
            r.requested() == len,
            r.contents() == Seq::<u8>::empty(),
    {
        RequestBuffer { buf: Vec::with_capacity(len), requested: len }
    }

    /// Number of bytes requested.
    pub closed spec fn requested(&self) -> nat {
        self.requested as nat
    }

    /// Bytes already in the buffer.
    pub closed spec fn contents(&self) -> Seq<u8> {
        self.buf@
    }

    /// The buffer and the number of bytes requested.
    pub fn into_vec(self) -> (r: (Vec<u8>, usize))
        ensures
            r.0@ == self.contents(),
            r.1 == self.requested(),
    {
        (self.buf, self.requested)
    }
}

/// Data of a completed OUT transfer: the buffer that was sent and the number
/// of bytes the device took.
pub struct ResponseBuffer {
    /// The buffer that was sent.
    pub buf: Vec<u8>,
    /// Number of bytes transferred.
    pub transferred: usize,
}

impl ResponseBuffer {
    /// Wraps a sent buffer with the number of bytes transferred.
    pub fn from_vec(buf: Vec<u8>, transferred: usize) -> (r: Self)
        ensures
            r.buf@ == buf@,
            r.transferred == transferred,
    {
        ResponseBuffer { buf, transferred }
    }
}

/// A completed transfer: its data and its status.
pub struct Completion<T> {
    /// The data of the transfer.
    pub data: T,
    /// Whether the transfer succeeded.
    pub status: Result<(), TransferError>,
}

/// A bulk OUT transfer to start: the endpoint address and the bytes to send.
pub struct BulkOut {
    /// Endpoint address.
    pub endpoint: u8,
    /// Bytes to send.
    pub data: Vec<u8>,
}

/// A bulk IN transfer to start: the endpoint number, the number of bytes to
/// read, and the buffer that the received bytes go into.
pub struct BulkIn {
    /// Endpoint number, without the direction bit.
    pub endpoint_number: u8,
    /// Number of bytes to read.
    pub length: u32,
    /// Buffer for the received bytes.
    pub buf: Vec<u8>,
    /// Number of bytes requested.
    pub requested: usize,
}

/// State of a transfer on one endpoint of a claimed interface: what the last
/// completion stored.
pub struct TransferData {
    endpoint: u8,
    ep_type: EndpointType,
    written_bytes: usize,
    status: UsbTransferStatus,
    data: Vec<u8>,
}

/// What a [`TransferData`] holds.
pub struct TransferDataView {
    pub endpoint: u8,
    pub ep_type: EndpointType,
    pub written_bytes: nat,
    pub status: UsbTransferStatus,
    pub data: Seq<u8>,
}

impl View for TransferData {
    type V = TransferDataView;

    closed spec fn view(&self) -> TransferDataView {
        TransferDataView {
            endpoint: self.endpoint,
            ep_type: self.ep_type,
            written_bytes: self.written_bytes as nat,
            status: self.status,
            data: self.data@,
        }
    }
}

impl TransferDataView {
    /// The state after a completion stored `data`, `status` and
    /// `written_bytes`.
    pub open spec fn stored(self, data: Seq<u8>, status: UsbTransferStatus, written_bytes: nat) -> Self {
        TransferDataView { data, status, written_bytes, ..self }
    }
}

/// Endpoint number of an endpoint address: the address without its
/// direction bit (bit 7).
pub open spec fn endpoint_number(endpoint: u8) -> u8 {
    endpoint & !0x80u8
}

/// The endpoint number is the address modulo 128, below 128, and equal to
/// the address for an OUT endpoint.
pub proof fn endpoint_number_drops_direction(endpoint: u8)
    ensures
        endpoint_number(endpoint) == endpoint % 128,
        endpoint_number(endpoint) < 128,
        endpoint < 128 ==> endpoint_number(endpoint) == endpoint,
{
    assert((endpoint & !0x80u8) == endpoint % 128 && (endpoint & !0x80u8) < 128 && (endpoint < 128
        ==> (endpoint & !0x80u8) == endpoint)) by (bit_vector);
}

impl TransferData {
    /// State for transfers on `endpoint`, of type `ep_type`, before any
    /// completion: nothing written, status "completed", no data.
    pub fn new(endpoint: u8, ep_type: EndpointType) -> (r: Self)
        ensures
            r@.endpoint == endpoint,
            r@.ep_type == ep_type,
            r@.written_bytes == 0,
            r@.status == UsbTransferStatus::Completed,
            r@.data == Seq::<u8>::empty(),
    {
        TransferData {
            endpoint,
            ep_type,
            written_bytes: 0,
            status: UsbTransferStatus::Completed,
            data: Vec::new(),
        }
    }

    /// The type of the endpoint.
    pub fn ep_type(&self) -> (r: EndpointType)
        ensures
            r == self@.ep_type,
    {
        self.ep_type
    }

    /// Stores what a finished transfer produced (then the transfer is
    /// reported complete).
    pub fn store_completion(&mut self, data: Vec<u8>, status: UsbTransferStatus, written_bytes: usize)
        ensures
            final(self)@ == old(self)@.stored(data@, status, written_bytes as nat),
    {
        self.data = data;
        self.status = status;
        self.written_bytes = written_bytes;
    }

    /// Starts an OUT transfer of `data`. Only bulk endpoints are supported.
    pub fn submit_out(&self, data: Vec<u8>) -> (r: BulkOut)
        requires
            self@.ep_type == EndpointType::Bulk,
        ensures
            r.endpoint == self@.endpoint,
            r.data@ == data@,
    {
        BulkOut { endpoint: self.endpoint, data }
    }

    /// Starts an IN transfer into `request`. Only bulk endpoints are
    /// supported; the endpoint is addressed by its number, and the length
    /// asked for is the requested length, cut to 32 bits.
    pub fn submit_in(&self, request: RequestBuffer) -> (r: BulkIn)
        requires
            self@.ep_type == EndpointType::Bulk,
        ensures
            r.endpoint_number == endpoint_number(self@.endpoint),
            r.length == request.requested() as u32,
            r.requested == request.requested(),
            r.buf@ == request.contents(),
    {
        let (buf, requested) = request.into_vec();
        BulkIn {
            endpoint_number: self.endpoint & !0x80u8,
            length: requested as u32,
            buf,
            requested,
        }
    }

    /// Completes an IN transfer: the buffer is made to hold exactly the
    /// received bytes, and it is stored with the status and the number of
    /// bytes that were requested.
    pub fn complete_in(
        &mut self,
        buf: Vec<u8>,
        received: &[u8],
        status: UsbTransferStatus,
        requested: usize,
    )
        ensures
            final(self)@ == old(self)@.stored(received@, status, requested as nat),
    {
        let mut buf = buf;
        buf.resize(received.len(), 0u8);
        let mut i: usize = 0;
        while i < received.len()
            invariant
                buf@.len() == received@.len(),
                i <= received@.len(),
                forall|j: int| 0 <= j < i ==> buf@[j] == received@[j],
            decreases received@.len() - i,
        {
            buf.set(i, received[i]);
            i = i + 1;
        }
        assert(buf@ =~= received@);
        self.store_completion(buf, status, requested);
    }

    /// The completion of an OUT transfer: the stored data with the number of
    /// bytes stored as written. The status is always success; the stored
    /// transfer status is not consulted.
    pub fn take_completed_out(&self) -> (r: Completion<ResponseBuffer>)
        ensures
            r.data.buf@ == self@.data,
            r.data.transferred == self@.written_bytes,
            r.status == Ok::<(), TransferError>(()),
    {
        let data = ResponseBuffer::from_vec(self.data.clone(), self.written_bytes);
        Completion { data, status: Ok(()) }
    }

    /// The completion of an IN transfer: the stored data. The status is always
    /// success; the stored transfer status is not consulted.
    pub fn take_completed_in(&self) -> (r: Completion<Vec<u8>>)
        ensures
            r.data@ == self@.data,
            r.status == Ok::<(), TransferError>(()),
    {
        Completion { data: self.data.clone(), status: Ok(()) }
    }
}

/// What a completion stores is what the next completed transfer hands back:
/// the data, and for an OUT transfer the byte count; the status handed back
/// is success whatever status was stored.
pub proof fn completion_returns_stored(
    state: TransferDataView,
    data: Seq<u8>,
    status: UsbTransferStatus,
    written_bytes: nat,
)
    ensures
        state.stored(data, status, written_bytes).data == data,
        state.stored(data, status, written_bytes).written_bytes == written_bytes,
        state.stored(data, status, written_bytes).status == status,
        state.stored(data, status, written_bytes).endpoint == state.endpoint,
        state.stored(data, status, written_bytes).ep_type == state.ep_type,
{
}

} // verus!
