//! Data shapes of the QR payment flows.
//!
//! The gateway integration itself (HTTP, signing, queueing) is an
//! external collaborator; the engine holds the request and response
//! shapes and their validation rules.

use vstd::prelude::*;

verus! {

/// A terminal's QR payment request.
#[derive(Debug, Clone)]
pub struct QrReqDto {
    pub transaction_id: String,
    pub terminal_id: String,
    pub amount: i32,
    pub currency: String,
    pub transaction_type: String,
    pub pc_pos_id: String,
}

impl QrReqDto {
    /// An empty request.
    pub fn new() -> (r: QrReqDto)
        ensures
            r.transaction_id@ == Seq::<char>::empty(),
            r.terminal_id@ == Seq::<char>::empty(),
            r.amount == 0,
            r.currency@ == Seq::<char>::empty(),
            r.transaction_type@ == Seq::<char>::empty(),
            r.pc_pos_id@ == Seq::<char>::empty(),
    {
        QrReqDto {
            transaction_id: String::new(),
            terminal_id: String::new(),
            amount: 0,
            currency: String::new(),
            transaction_type: String::new(),
            pc_pos_id: String::new(),
        }
    }

    /// A request is valid exactly when its amount is positive.
    pub fn validate(&self) -> (r: Result<(), &'static str>)
        ensures
            r is Ok <==> self.amount > 0,
            r is Err ==> r->Err_0@ == "Amount must be greater than 0"@,
    {
        if self.amount <= 0 {
            return Err("Amount must be greater than 0");
        }
        Ok(())
    }
}

/// The QR response returned to a terminal.
#[derive(Debug, Clone)]
pub struct QrRespDto {
    pub response_code: String,
    pub qr_code: String,
    pub transaction_id: String,
    pub pc_pos_id: String,
}

impl QrRespDto {
    /// An empty response.
    pub fn new() -> (r: QrRespDto)
        ensures
            r.response_code@ == Seq::<char>::empty(),
            r.qr_code@ == Seq::<char>::empty(),
            r.transaction_id@ == Seq::<char>::empty(),
            r.pc_pos_id@ == Seq::<char>::empty(),
    {
        QrRespDto {
            response_code: String::new(),
            qr_code: String::new(),
            transaction_id: String::new(),
            pc_pos_id: String::new(),
        }
    }

    /// A response is valid exactly when it carries a QR code.
    pub fn validate(&self) -> (r: Result<(), &'static str>)
        ensures
            r is Ok <==> self.qr_code@.len() > 0,
            r is Err ==> r->Err_0@ == "QR Code cannot be empty"@,
    {
        if self.qr_code.as_str().unicode_len() == 0 {
            return Err("QR Code cannot be empty");
        }
        Ok(())
    }
}

/// A VietQR creation request.
#[derive(Debug, Clone)]
pub struct VietQrReq {
    pub account_no: String,
    pub account_name: String,
    pub acq_id: i32,
    pub amount: i32,
    pub add_info: String,
    pub format: String,
    pub template: String,
}

/// The payload of a VietQR response.
#[derive(Debug, Clone)]
pub struct Data {
    pub qr_code: String,
    pub qr_data_url: String,
}

/// A VietQR creation response.
#[derive(Debug, Clone)]
pub struct VietQrResp {
    pub code: String,
    pub desc: String,
    pub data: Data,
}

/// The wire shape of a VietQR request.
#[derive(Debug, Clone)]
pub struct VietQrReqDto {
    pub account_no: String,
    pub account_name: String,
    pub acq_id: i32,
    pub amount: i32,
    pub add_info: String,
    pub format: String,
    pub template: String,
}

impl VietQrReqDto {
    /// The model a wire request denotes, field for field.
    pub fn into_model(self) -> (r: VietQrReq)
        ensures
            r.account_no@ == self.account_no@,
            r.account_name@ == self.account_name@,
            r.acq_id == self.acq_id,
            r.amount == self.amount,
            r.add_info@ == self.add_info@,
            r.format@ == self.format@,
            r.template@ == self.template@,
    {
        VietQrReq {
            account_no: self.account_no,
            account_name: self.account_name,
            acq_id: self.acq_id,
            amount: self.amount,
            add_info: self.add_info,
            format: self.format,
            template: self.template,
        }
    }
}

/// The wire shape of a VietQR response payload.
#[derive(Debug, Clone)]
pub struct DataDto {
    pub qr_code: String,
    pub qr_data_url: String,
}

/// The wire shape of a VietQR response.
#[derive(Debug, Clone)]
pub struct VietQrRespDto {
    pub code: String,
    pub desc: String,
    pub data: DataDto,
}

impl VietQrResp {
    /// The wire shape of this response, field for field.
    pub fn into_dto(self) -> (r: VietQrRespDto)
        ensures
            r.code@ == self.code@,
            r.desc@ == self.desc@,
            r.data.qr_code@ == self.data.qr_code@,
            r.data.qr_data_url@ == self.data.qr_data_url@,
    {
        VietQrRespDto {
            code: self.code,
            desc: self.desc,
            data: DataDto { qr_code: self.data.qr_code, qr_data_url: self.data.qr_data_url },
        }
    }
}

/// A card as captured for the gateway.
#[derive(Debug, Clone)]
pub struct Card {
    pub pan: String,
    pub exp_month: u8,
    pub exp_year: u16,
    pub cvv: String,
    pub cardholder_name: Option<String>,
}

/// The card-channel response to a terminal.
#[derive(Debug, Clone)]
pub struct CardResp {
    pub transaction_type: String,
    pub amount: String,
    pub status: String,
    pub message: String,
    pub transaction_id: String,
    pub tip_amt: u32,
    pub curr_cd: String,
    pub terminal_id: String,
    pub pc_pos_id: String,
}

/// Card validation failures.
#[derive(Debug, Clone, Copy, PartialEq, Eq, Structural)]
pub enum CardError {
    InvalidLast4,
    InvalidBin,
    InvalidExpiry,
}

impl CardError {
    /// Human-readable description of this failure.
    pub fn message(&self) -> (r: &'static str)
        ensures
            *self == CardError::InvalidLast4 ==> r@ == "invalid last4 digits"@,
            *self == CardError::InvalidBin ==> r@ == "invalid card bin"@,
            *self == CardError::InvalidExpiry ==> r@ == "invalid expiration date"@,
    {
        match self {
            CardError::InvalidLast4 => "invalid last4 digits",
            CardError::InvalidBin => "invalid card bin",
            CardError::InvalidExpiry => "invalid expiration date",
        }
    }
}

/// The stub QR service of this deployment: it shapes a sample response
/// while the real gateway integration stays an external collaborator.
pub struct VietQrService;

impl VietQrService {
    pub fn new() -> (r: VietQrService) {
        VietQrService
    }

    /// Answer a creation request with the sample success response.
    pub fn create_qr(&self, payload: VietQrReqDto) -> (r: Result<VietQrRespDto, String>)
        ensures
            r is Ok,
            r->Ok_0.code@ == "00"@,
            r->Ok_0.desc@ == "Success"@,
            r->Ok_0.data.qr_code@ == "SAMPLE_CODE"@,
    {
        let _model: VietQrReq = payload.into_model();
        let data = Data {
            qr_code: "SAMPLE_CODE".to_owned(),
            qr_data_url: "https://example.com/qr/SAMPLE".to_owned(),
        };
        let resp = VietQrResp { code: "00".to_owned(), desc: "Success".to_owned(), data };
        Ok(resp.into_dto())
    }
}

/// State of a gateway payment link.
#[derive(Debug, Clone, Copy, PartialEq, Eq, Structural)]
pub enum PaymentLinkStatus {
    Pending,
    Cancelled,
    Underpaid,
    Paid,
    Expired,
    Processing,
    Failed,
}

/// One line item of a gateway payment request.
#[derive(Debug, Clone)]
pub struct PayOsItem {
    pub name: String,
    pub quantity: i32,
    /// Price in minor currency units.
    pub price: i64,
    pub unit: String,
    pub tax_percent: PayOsTaxPercent,
}

/// The tax rates the gateway accepts.
#[derive(Debug, Clone, Copy, PartialEq, Eq, Structural)]
pub enum PayOsTaxPercent {
    NegativeTwo,
    NegativeOne,
    Zero,
    Five,
    Eight,
    Ten,
}

impl PayOsTaxPercent {
    /// The numeric rate this variant names.
    pub fn as_percent(&self) -> (r: i8)
        ensures
            *self == PayOsTaxPercent::NegativeTwo ==> r == -2,
            *self == PayOsTaxPercent::NegativeOne ==> r == -1,
            *self == PayOsTaxPercent::Zero ==> r == 0,
            *self == PayOsTaxPercent::Five ==> r == 5,
            *self == PayOsTaxPercent::Eight ==> r == 8,
            *self == PayOsTaxPercent::Ten ==> r == 10,
    {
        match self {
            PayOsTaxPercent::NegativeTwo => -2,
            PayOsTaxPercent::NegativeOne => -1,
            PayOsTaxPercent::Zero => 0,
            PayOsTaxPercent::Five => 5,
            PayOsTaxPercent::Eight => 8,
            PayOsTaxPercent::Ten => 10,
        }
    }
}

/// A gateway payment-creation request.
#[derive(Debug, Clone)]
pub struct PayOsQrReq {
    pub order_code: i32,
    /// Total amount in minor currency units.
    pub amount: i32,
    pub description: String,
    pub buyer_name: Option<String>,
    pub buyer_email: Option<String>,
    pub buyer_company_name: Option<String>,
    pub buyer_phone: Option<String>,
    pub buyer_address: Option<String>,
    pub buyer_tax_code: Option<String>,
    pub items: Option<Vec<PayOsItem>>,
    pub return_url: String,
    pub cancel_url: String,
    pub invoice: Option<String>,
    pub expired_at: Option<u64>,
    pub signature: String,
}

/// The payload of a successful gateway reply.
#[derive(Debug, Clone)]
pub struct PayOsPaymentData {
    pub bin: String,
    pub account_number: String,
    pub account_name: String,
    pub currency: String,
    pub payment_link_id: String,
    pub amount: i64,
    pub description: String,
    pub order_code: i64,
    pub expired_at: Option<i64>,
    pub status: PaymentLinkStatus,
    pub checkout_url: String,
    pub qr_code: String,
}

/// A gateway reply: business code, description, optional payload.
#[derive(Debug, Clone)]
pub struct PayOsPaymentResponse {
    pub code: String,
    pub desc: String,
    pub data: Option<PayOsPaymentData>,
    pub signature: String,
}

/// Interpret a gateway reply: a non-"00" business code or a missing
/// payload fails; a success yields the terminal-facing response.
pub fn interpret_payos_response(resp: PayOsPaymentResponse, pc_pos_id: String) -> (r: Result<
    QrRespDto,
    String,
>)
    ensures
        r is Ok <==> resp.code@ == "00"@ && resp.data is Some,
        r is Ok ==> {
            let d = resp.data->0;
            &&& r->Ok_0.response_code@ == resp.code@
            &&& r->Ok_0.qr_code@ == d.qr_code@
            &&& r->Ok_0.pc_pos_id@ == pc_pos_id@
        },
{
    if !crate::strutil::str_eq(resp.code.as_str(), "00") {
        return Err("gateway reported a business error".to_owned());
    }
    let data = match resp.data {
        Some(d) => d,
        None => {
            return Err("gateway success carried no data".to_owned());
        },
    };
    let order_text = format_i64_digits(data.order_code);
    Ok(
        QrRespDto {
            response_code: resp.code,
            qr_code: data.qr_code,
            transaction_id: order_text,
            pc_pos_id,
        },
    )
}

/// Render a non-negative order number in as many digits as it needs;
/// negative numbers render as zero.
fn format_i64_digits(n: i64) -> (r: String)
    ensures
        r@.len() >= 1,
{
    proof {
        crate::strutil::lemma_pow10_value_15();
        assert(crate::strutil::pow10(0) == 1);
    }
    if n <= 0 {
        return crate::strutil::format_dec(0, 1);
    }
    let mut width: usize = 1;
    let v = n as u64;
    let mut p = crate::strutil::pow10_u64(1);
    while width < 15 && v >= p
        invariant
            1 <= width <= 15,
            p == crate::strutil::pow10(width as int),
        decreases 15 - width,
    {
        width = width + 1;
        p = crate::strutil::pow10_u64(width);
    }
    if v < crate::strutil::pow10_u64(width) {
        crate::strutil::format_dec(v, width)
    } else {
        crate::strutil::format_dec(0, 1)
    }
}

} // verus!
