//! The control frames, and the JSON text in which a device frame goes to the host.
//!
//! A frame is one flat JSON object that names its kind under `"type"`.
use vstd::prelude::*;
use crate::json;
use crate::text;

verus! {

/// A host -> device control frame. It carries image coordinates and a content digest, never blob
/// bytes.
#[derive(Debug, Clone, PartialEq, Eq)]
pub enum HostFrame {
    /// The image that is now there for the device to pull.
    Sync { image: String, tag: String, digest: String },
}

/// A device -> host control frame.
#[derive(Debug, Clone, PartialEq, Eq)]
pub enum DeviceFrame {
    Hello(Hello),
    Progress(Progress),
    Status(Status),
}

/// Who the device is, its CPU architecture, and the digest that it runs now.
#[derive(Debug, Clone, PartialEq, Eq)]
pub struct Hello {
    pub device_id: String,
    pub arch: String,
    pub running_digest: String,
}

/// Progress of a pull in flight.
#[derive(Debug, Clone, PartialEq, Eq)]
pub struct Progress {
    pub image: String,
    pub bytes_pulled: u64,
}

/// A report of the device's state.
#[derive(Debug, Clone, PartialEq, Eq)]
pub struct Status {
    pub device_id: String,
    pub state: String,
    pub detail: Option<String>,
}

/// What follows the state in a status frame: the detail where there is one, and the end.
pub open spec fn detail_wire(detail: Option<String>) -> Seq<char> {
    match detail {
        Some(d) => ",\"detail\":"@ + (json::json_string(d@) + "}"@),
        None => "}"@,
    }
}

impl DeviceFrame {
    /// The JSON text of this frame.
    pub open spec fn wire(self) -> Seq<char> {
        match self {
            DeviceFrame::Hello(h) => "{\"type\":\"hello\",\"device_id\":"@ + (json::json_string(
                h.device_id@,
            ) + (",\"arch\":"@ + (json::json_string(h.arch@) + (",\"running_digest\":"@ + (
            json::json_string(h.running_digest@) + "}"@))))),
            DeviceFrame::Progress(p) => "{\"type\":\"progress\",\"image\":"@ + (json::json_string(
                p.image@,
            ) + (",\"bytes_pulled\":"@ + (text::decimal(p.bytes_pulled as nat) + "}"@))),
            DeviceFrame::Status(s) => "{\"type\":\"status\",\"device_id\":"@ + (json::json_string(
                s.device_id@,
            ) + (",\"state\":"@ + (json::json_string(s.state@) + detail_wire(s.detail)))),
        }
    }

    /// Whether this frame and `other` say the same.
    pub open spec fn says(self, other: DeviceFrame) -> bool {
        match (self, other) {
            (DeviceFrame::Hello(a), DeviceFrame::Hello(b)) => {
                &&& a.device_id@ == b.device_id@
                &&& a.arch@ == b.arch@
                &&& a.running_digest@ == b.running_digest@
            },
            (DeviceFrame::Progress(a), DeviceFrame::Progress(b)) => {
                &&& a.image@ == b.image@
                &&& a.bytes_pulled == b.bytes_pulled
            },
            (DeviceFrame::Status(a), DeviceFrame::Status(b)) => {
                &&& a.device_id@ == b.device_id@
                &&& a.state@ == b.state@
                &&& match (a.detail, b.detail) {
                    (Some(x), Some(y)) => x@ == y@,
                    (None, None) => true,
                    _ => false,
                }
            },
            _ => false,
        }
    }

    /// The JSON text of this frame, as it is sent to the host.
    pub fn to_wire(&self) -> (r: String)
        ensures
            r@ == self.wire(),
    {
        match self {
            DeviceFrame::Hello(h) => {
                let tail = json::json_text(h.running_digest.as_str()).concat("}");
                let tail = ",\"running_digest\":".to_string().concat(tail.as_str());
                let tail = json::json_text(h.arch.as_str()).concat(tail.as_str());
                let tail = ",\"arch\":".to_string().concat(tail.as_str());
                let tail = json::json_text(h.device_id.as_str()).concat(tail.as_str());
                "{\"type\":\"hello\",\"device_id\":".to_string().concat(tail.as_str())
            },
            DeviceFrame::Progress(p) => {
                let tail = text::decimal_text(p.bytes_pulled).concat("}");
                let tail = ",\"bytes_pulled\":".to_string().concat(tail.as_str());
                let tail = json::json_text(p.image.as_str()).concat(tail.as_str());
                "{\"type\":\"progress\",\"image\":".to_string().concat(tail.as_str())
            },
            DeviceFrame::Status(s) => {
                let tail = match &s.detail {
                    Some(d) => {
                        let end = json::json_text(d.as_str()).concat("}");
                        ",\"detail\":".to_string().concat(end.as_str())
                    },
                    None => "}".to_string(),
                };
                let tail = json::json_text(s.state.as_str()).concat(tail.as_str());
                let tail = ",\"state\":".to_string().concat(tail.as_str());
                let tail = json::json_text(s.device_id.as_str()).concat(tail.as_str());
                "{\"type\":\"status\",\"device_id\":".to_string().concat(tail.as_str())
            },
        }
    }
}

/// Nothing is lost on the wire: two frames with the same JSON text say the same.
pub proof fn law_wire_reads_back(f: DeviceFrame, g: DeviceFrame)
    requires
        f.wire() == g.wire(),
    ensures
        f.says(g),
{
    reveal_strlit("{\"type\":\"hello\",\"device_id\":");
    reveal_strlit("{\"type\":\"progress\",\"image\":");
    reveal_strlit("{\"type\":\"status\",\"device_id\":");
    reveal_strlit("}");
    reveal_strlit(",\"detail\":");
    // The tenth character is the first letter of the kind.
    assert(f.wire()[9] == match f {
        DeviceFrame::Hello(_) => 'h',
        DeviceFrame::Progress(_) => 'p',
        DeviceFrame::Status(_) => 's',
    });
    assert(g.wire()[9] == match g {
        DeviceFrame::Hello(_) => 'h',
        DeviceFrame::Progress(_) => 'p',
        DeviceFrame::Status(_) => 's',
    });
    match (f, g) {
        (DeviceFrame::Hello(a), DeviceFrame::Hello(b)) => {
            let a3 = json::json_string(a.running_digest@) + "}"@;
            let b3 = json::json_string(b.running_digest@) + "}"@;
            let a2 = json::json_string(a.arch@) + (",\"running_digest\":"@ + a3);
            let b2 = json::json_string(b.arch@) + (",\"running_digest\":"@ + b3);
            let a1 = json::json_string(a.device_id@) + (",\"arch\":"@ + a2);
            let b1 = json::json_string(b.device_id@) + (",\"arch\":"@ + b2);
            json::lemma_cut("{\"type\":\"hello\",\"device_id\":"@, a1, b1);
            json::law_json_string_reads_back(
                a.device_id@,
                b.device_id@,
                ",\"arch\":"@ + a2,
                ",\"arch\":"@ + b2,
            );
            json::lemma_cut(",\"arch\":"@, a2, b2);
            json::law_json_string_reads_back(
                a.arch@,
                b.arch@,
                ",\"running_digest\":"@ + a3,
                ",\"running_digest\":"@ + b3,
            );
            json::lemma_cut(",\"running_digest\":"@, a3, b3);
            json::law_json_string_reads_back(a.running_digest@, b.running_digest@, "}"@, "}"@);
        },
        (DeviceFrame::Progress(a), DeviceFrame::Progress(b)) => {
            let an = text::decimal(a.bytes_pulled as nat);
            let bn = text::decimal(b.bytes_pulled as nat);
            let a1 = json::json_string(a.image@) + (",\"bytes_pulled\":"@ + (an + "}"@));
            let b1 = json::json_string(b.image@) + (",\"bytes_pulled\":"@ + (bn + "}"@));
            json::lemma_cut("{\"type\":\"progress\",\"image\":"@, a1, b1);
            json::law_json_string_reads_back(
                a.image@,
                b.image@,
                ",\"bytes_pulled\":"@ + (an + "}"@),
                ",\"bytes_pulled\":"@ + (bn + "}"@),
            );
            json::lemma_cut(",\"bytes_pulled\":"@, an + "}"@, bn + "}"@);
            assert((an + "}"@).drop_last() =~= an);
            assert((bn + "}"@).drop_last() =~= bn);
            text::law_decimal_reads_back(a.bytes_pulled as nat);
            text::law_decimal_reads_back(b.bytes_pulled as nat);
        },
        (DeviceFrame::Status(a), DeviceFrame::Status(b)) => {
            let a2 = json::json_string(a.state@) + detail_wire(a.detail);
            let b2 = json::json_string(b.state@) + detail_wire(b.detail);
            let a1 = json::json_string(a.device_id@) + (",\"state\":"@ + a2);
            let b1 = json::json_string(b.device_id@) + (",\"state\":"@ + b2);
            json::lemma_cut("{\"type\":\"status\",\"device_id\":"@, a1, b1);
            json::law_json_string_reads_back(
                a.device_id@,
                b.device_id@,
                ",\"state\":"@ + a2,
                ",\"state\":"@ + b2,
            );
            json::lemma_cut(",\"state\":"@, a2, b2);
            json::law_json_string_reads_back(
                a.state@,
                b.state@,
                detail_wire(a.detail),
                detail_wire(b.detail),
            );
            assert(detail_wire(a.detail)[0] == if a.detail is Some {
                ','
            } else {
                '}'
            });
            assert(detail_wire(b.detail)[0] == if b.detail is Some {
                ','
            } else {
                '}'
            });
            if let (Some(x), Some(y)) = (a.detail, b.detail) {
                json::lemma_cut(
                    ",\"detail\":"@,
                    json::json_string(x@) + "}"@,
                    json::json_string(y@) + "}"@,
                );
                json::law_json_string_reads_back(x@, y@, "}"@, "}"@);
            }
        },
        _ => {},
    }
}

} // verus!
