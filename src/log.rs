//! Decoding of one result file and its canonical form.
use crate::json::{
    json_members_of, lookup, members_view, parse_members, position_of, same_text, JsonScalar,
    Members, ScalarModel,
};
use crate::timestamp::{naive_datetime_of, parse_timestamp, Timestamp};
use crate::{Error, Failure};
use vstd::prelude::*;

verus! {

/// A data rate, tagged with the unit that it was reported in.
///
/// The magnitude is held as the bit pattern of a 64-bit IEEE float. Its value
/// in bits per second is the magnitude times `1024` to the power
/// [`Bandwidth::scale`].
#[derive(Clone, Copy, Debug, PartialEq, Eq, Structural)]
pub enum Bandwidth {
    Bits(u64),
    Kilobits(u64),
    Megabits(u64),
    Gigabits(u64),
    Terabits(u64),
}

/// The rate that a unit text and a magnitude stand for, or `None` for a unit
/// outside the table. `Kbit/s` resolves to plain bits, not kilobits: its
/// magnitude is kept unscaled.
pub open spec fn unit_bandwidth(unit: Seq<char>, value: u64) -> Option<Bandwidth> {
    if unit == "Bit/s"@ {
        Some(Bandwidth::Bits(value))
    } else if unit == "Kbit/s"@ {
        Some(Bandwidth::Bits(value))
    } else if unit == "Mbit/s"@ {
        Some(Bandwidth::Megabits(value))
    } else if unit == "Gbit/s"@ {
        Some(Bandwidth::Gigabits(value))
    } else if unit == "Tbit/s"@ {
        Some(Bandwidth::Terabits(value))
    } else {
        None
    }
}

/// Whether a unit text is one of the table's.
pub open spec fn known_unit(unit: Seq<char>) -> bool {
    unit == "Bit/s"@ || unit == "Kbit/s"@ || unit == "Mbit/s"@ || unit == "Gbit/s"@
        || unit == "Tbit/s"@
}

impl Bandwidth {
    /// The power of `1024` that turns the magnitude into bits per second.
    pub open spec fn spec_scale(self) -> nat {
        match self {
            Bandwidth::Bits(_) => 0,
            Bandwidth::Kilobits(_) => 1,
            Bandwidth::Megabits(_) => 2,
            Bandwidth::Gigabits(_) => 3,
            Bandwidth::Terabits(_) => 4,
        }
    }

    pub open spec fn spec_magnitude(self) -> u64 {
        match self {
            Bandwidth::Bits(m) => m,
            Bandwidth::Kilobits(m) => m,
            Bandwidth::Megabits(m) => m,
            Bandwidth::Gigabits(m) => m,
            Bandwidth::Terabits(m) => m,
        }
    }

    /// Resolves a unit text and a magnitude (float bits) into a rate.
    pub fn resolve(unit: &str, value: u64) -> (r: Option<Bandwidth>)
        ensures
            r == unit_bandwidth(unit@, value),
            r is Some <==> known_unit(unit@),
            r matches Some(b) ==> b.spec_magnitude() == value,
    {
        if same_text(unit, "Bit/s") {
            Some(Bandwidth::Bits(value))
        } else if same_text(unit, "Kbit/s") {
            Some(Bandwidth::Bits(value))
        } else if same_text(unit, "Mbit/s") {
            Some(Bandwidth::Megabits(value))
        } else if same_text(unit, "Gbit/s") {
            Some(Bandwidth::Gigabits(value))
        } else if same_text(unit, "Tbit/s") {
            Some(Bandwidth::Terabits(value))
        } else {
            None
        }
    }

    pub fn scale(&self) -> (r: u32)
        ensures
            r == self.spec_scale(),
    {
        match self {
            Bandwidth::Bits(_) => 0,
            Bandwidth::Kilobits(_) => 1,
            Bandwidth::Megabits(_) => 2,
            Bandwidth::Gigabits(_) => 3,
            Bandwidth::Terabits(_) => 4,
        }
    }

    /// The magnitude, as the bit pattern of a 64-bit IEEE float.
    pub fn magnitude_bits(&self) -> (r: u64)
        ensures
            r == self.spec_magnitude(),
    {
        match self {
            Bandwidth::Bits(m) => *m,
            Bandwidth::Kilobits(m) => *m,
            Bandwidth::Megabits(m) => *m,
            Bandwidth::Gigabits(m) => *m,
            Bandwidth::Terabits(m) => *m,
        }
    }
}

/// A logical field of a result file.
#[derive(Clone, Copy, Debug, PartialEq, Eq, Structural)]
pub enum Field {
    DeviceName,
    Timestamp,
    TestName,
    DownloadValue,
    DownloadUnit,
    UploadValue,
    UploadUnit,
    Ping,
    ClientIp,
    ClientLon,
    ClientLat,
}

/// The keys under which a field may stand, in the order they are tried.
pub open spec fn accepted_keys(f: Field) -> Seq<Seq<char>> {
    match f {
        Field::DeviceName => seq!["MurakamiLocation"@],
        Field::Timestamp => seq!["TestStartTime"@],
        Field::TestName => seq!["TestName"@],
        Field::DownloadValue => seq!["DownloadValue"@],
        Field::DownloadUnit => seq!["DownloadUnit"@],
        Field::UploadValue => seq!["UploadValue"@],
        Field::UploadUnit => seq!["UploadUnit"@],
        Field::Ping => seq!["MinRTTValue"@, "Ping"@],
        Field::ClientIp => seq!["ClientIP"@, "ClientIp"@],
        Field::ClientLon => seq!["ClientLon"@],
        Field::ClientLat => seq!["ClientLat"@],
    }
}

/// Whether a record cannot be had without the field.
pub open spec fn required(f: Field) -> bool {
    f != Field::ClientLon && f != Field::ClientLat
}

fn key_count(f: Field) -> (r: usize)
    ensures
        r == accepted_keys(f).len(),
{
    match f {
        Field::Ping | Field::ClientIp => 2,
        _ => 1,
    }
}

fn key_at(f: Field, k: usize) -> (r: &'static str)
    requires
        k < accepted_keys(f).len(),
    ensures
        r@ == accepted_keys(f)[k as int],
{
    match f {
        Field::DeviceName => "MurakamiLocation",
        Field::Timestamp => "TestStartTime",
        Field::TestName => "TestName",
        Field::DownloadValue => "DownloadValue",
        Field::DownloadUnit => "DownloadUnit",
        Field::UploadValue => "UploadValue",
        Field::UploadUnit => "UploadUnit",
        Field::Ping => if k == 0 { "MinRTTValue" } else { "Ping" },
        Field::ClientIp => if k == 0 { "ClientIP" } else { "ClientIp" },
        Field::ClientLon => "ClientLon",
        Field::ClientLat => "ClientLat",
    }
}

/// The index of the member that supplies a field.
fn find_field(ms: &Vec<(String, JsonScalar)>, f: Field) -> (r: Option<usize>)
    ensures
        match r {
            Some(i) => i < ms@.len() && lookup(members_view(ms@), accepted_keys(f)) == Some(
                ms@[i as int].1@,
            ),
            None => lookup(members_view(ms@), accepted_keys(f)) is None,
        },
{
    let ghost all = members_view(ms@);
    let ghost keys = accepted_keys(f);
    let n = key_count(f);
    let mut j: usize = 0;
    assert(keys.skip(0) =~= keys);
    while j < n
        invariant
            j <= n,
            n == keys.len(),
            keys == accepted_keys(f),
            all == members_view(ms@),
            lookup(all, keys) == lookup(all, keys.skip(j as int)),
        decreases n - j,
    {
        let ghost rest = keys.skip(j as int);
        assert(rest[0] == keys[j as int]);
        if let Some(i) = position_of(ms, key_at(f, j)) {
            return Some(i);
        }
        assert(rest.drop_first() =~= keys.skip(j + 1));
        j = j + 1;
    }
    assert(keys.skip(j as int).len() == 0);
    None
}

/// Why a parsed object does not make a record.
#[derive(Clone, Copy, Debug, PartialEq, Eq, Structural)]
pub enum FieldError {
    /// No accepted key of the field is present.
    Missing(Field),
    /// The field's value has the wrong JSON type, or its text does not read.
    Invalid(Field),
}

pub open spec fn text_field(ms: Members, f: Field) -> Result<Seq<char>, FieldError> {
    match lookup(ms, accepted_keys(f)) {
        None => Err(FieldError::Missing(f)),
        Some(ScalarModel::Text(s)) => Ok(s),
        Some(_) => Err(FieldError::Invalid(f)),
    }
}

pub open spec fn number_field(ms: Members, f: Field) -> Result<u64, FieldError> {
    match lookup(ms, accepted_keys(f)) {
        None => Err(FieldError::Missing(f)),
        Some(ScalarModel::Number(n)) => Ok(n),
        Some(_) => Err(FieldError::Invalid(f)),
    }
}

/// An optional text: absent and `null` both give `None`.
pub open spec fn optional_text_field(ms: Members, f: Field) -> Result<Option<Seq<char>>, FieldError> {
    match lookup(ms, accepted_keys(f)) {
        None => Ok(None),
        Some(ScalarModel::Null) => Ok(None),
        Some(ScalarModel::Text(s)) => Ok(Some(s)),
        Some(_) => Err(FieldError::Invalid(f)),
    }
}

pub open spec fn timestamp_field(ms: Members) -> Result<Timestamp, FieldError> {
    match text_field(ms, Field::Timestamp) {
        Err(e) => Err(e),
        Ok(s) => match naive_datetime_of(s) {
            Some(t) => Ok(t),
            None => Err(FieldError::Invalid(Field::Timestamp)),
        },
    }
}

fn text_of(ms: &Vec<(String, JsonScalar)>, f: Field) -> (r: Result<String, FieldError>)
    ensures
        match r {
            Ok(s) => text_field(members_view(ms@), f) == Ok::<Seq<char>, FieldError>(s@),
            Err(e) => text_field(members_view(ms@), f) == Err::<Seq<char>, FieldError>(e),
        },
{
    match find_field(ms, f) {
        None => Err(FieldError::Missing(f)),
        Some(i) => match &ms[i].1 {
            JsonScalar::Text(s) => Ok(s.clone()),
            _ => Err(FieldError::Invalid(f)),
        },
    }
}

fn number_of(ms: &Vec<(String, JsonScalar)>, f: Field) -> (r: Result<u64, FieldError>)
    ensures
        r == number_field(members_view(ms@), f),
{
    match find_field(ms, f) {
        None => Err(FieldError::Missing(f)),
        Some(i) => match &ms[i].1 {
            JsonScalar::Number(n) => Ok(*n),
            _ => Err(FieldError::Invalid(f)),
        },
    }
}

fn optional_text_of(ms: &Vec<(String, JsonScalar)>, f: Field) -> (r: Result<Option<String>, FieldError>)
    ensures
        match r {
            Ok(Some(s)) => optional_text_field(members_view(ms@), f) == Ok::<Option<Seq<char>>, FieldError>(Some(s@)),
            Ok(None) => optional_text_field(members_view(ms@), f) == Ok::<Option<Seq<char>>, FieldError>(None),
            Err(e) => optional_text_field(members_view(ms@), f) == Err::<Option<Seq<char>>, FieldError>(e),
        },
{
    match find_field(ms, f) {
        None => Ok(None),
        Some(i) => match &ms[i].1 {
            JsonScalar::Null => Ok(None),
            JsonScalar::Text(s) => Ok(Some(s.clone())),
            _ => Err(FieldError::Invalid(f)),
        },
    }
}

fn timestamp_of(ms: &Vec<(String, JsonScalar)>) -> (r: Result<Timestamp, FieldError>)
    ensures
        r == timestamp_field(members_view(ms@)),
{
    let s = match text_of(ms, Field::Timestamp) {
        Ok(s) => s,
        Err(e) => return Err(e),
    };
    match parse_timestamp(s.as_str()) {
        Some(t) => Ok(t),
        None => Err(FieldError::Invalid(Field::Timestamp)),
    }
}

/// A decoded result file, before its rates are resolved.
#[derive(Debug)]
pub struct RawLogRecord {
    device_name: String,
    timestamp: Timestamp,
    test_name: String,
    download_value: u64,
    download_unit: String,
    upload_value: u64,
    upload_unit: String,
    ping: u64,
    client_ip: String,
    client_lon: Option<String>,
    client_lat: Option<String>,
}

/// The model of a [`RawLogRecord`]. Numbers are 64-bit IEEE float bits.
pub ghost struct RawModel {
    pub device_name: Seq<char>,
    pub timestamp: Timestamp,
    pub test_name: Seq<char>,
    pub download_value: u64,
    pub download_unit: Seq<char>,
    pub upload_value: u64,
    pub upload_unit: Seq<char>,
    pub ping: u64,
    pub client_ip: Seq<char>,
    pub client_lon: Option<Seq<char>>,
    pub client_lat: Option<Seq<char>>,
}

pub open spec fn opt_view(o: Option<String>) -> Option<Seq<char>> {
    match o {
        Some(s) => Some(s@),
        None => None,
    }
}

impl View for RawLogRecord {
    type V = RawModel;

    closed spec fn view(&self) -> RawModel {
        RawModel {
            device_name: self.device_name@,
            timestamp: self.timestamp,
            test_name: self.test_name@,
            download_value: self.download_value,
            download_unit: self.download_unit@,
            upload_value: self.upload_value,
            upload_unit: self.upload_unit@,
            ping: self.ping,
            client_ip: self.client_ip@,
            client_lon: opt_view(self.client_lon),
            client_lat: opt_view(self.client_lat),
        }
    }
}

/// The record that an object's members make, or the first field, in the
/// order of [`Field`], that does not read.
pub open spec fn raw_of(ms: Members) -> Result<RawModel, FieldError> {
    let device_name = text_field(ms, Field::DeviceName);
    let timestamp = timestamp_field(ms);
    let test_name = text_field(ms, Field::TestName);
    let download_value = number_field(ms, Field::DownloadValue);
    let download_unit = text_field(ms, Field::DownloadUnit);
    let upload_value = number_field(ms, Field::UploadValue);
    let upload_unit = text_field(ms, Field::UploadUnit);
    let ping = number_field(ms, Field::Ping);
    let client_ip = text_field(ms, Field::ClientIp);
    let client_lon = optional_text_field(ms, Field::ClientLon);
    let client_lat = optional_text_field(ms, Field::ClientLat);
    if device_name is Err {
        Err(device_name->Err_0)
    } else if timestamp is Err {
        Err(timestamp->Err_0)
    } else if test_name is Err {
        Err(test_name->Err_0)
    } else if download_value is Err {
        Err(download_value->Err_0)
    } else if download_unit is Err {
        Err(download_unit->Err_0)
    } else if upload_value is Err {
        Err(upload_value->Err_0)
    } else if upload_unit is Err {
        Err(upload_unit->Err_0)
    } else if ping is Err {
        Err(ping->Err_0)
    } else if client_ip is Err {
        Err(client_ip->Err_0)
    } else if client_lon is Err {
        Err(client_lon->Err_0)
    } else if client_lat is Err {
        Err(client_lat->Err_0)
    } else {
        Ok(
            RawModel {
                device_name: device_name->Ok_0,
                timestamp: timestamp->Ok_0,
                test_name: test_name->Ok_0,
                download_value: download_value->Ok_0,
                download_unit: download_unit->Ok_0,
                upload_value: upload_value->Ok_0,
                upload_unit: upload_unit->Ok_0,
                ping: ping->Ok_0,
                client_ip: client_ip->Ok_0,
                client_lon: client_lon->Ok_0,
                client_lat: client_lat->Ok_0,
            },
        )
    }
}

/// What decoding a buffer gives: the record, or why there is none.
pub open spec fn decoded(b: Seq<u8>) -> Result<RawModel, Failure> {
    match json_members_of(b) {
        None => Err(Failure::Syntax),
        Some(ms) => match raw_of(ms) {
            Ok(raw) => Ok(raw),
            Err(e) => Err(Failure::Schema(e)),
        },
    }
}

impl RawLogRecord {
    /// Builds the record from an object's members.
    pub fn from_members(ms: &Vec<(String, JsonScalar)>) -> (r: Result<RawLogRecord, FieldError>)
        ensures
            match r {
                Ok(raw) => raw_of(members_view(ms@)) == Ok::<RawModel, FieldError>(raw@),
                Err(e) => raw_of(members_view(ms@)) == Err::<RawModel, FieldError>(e),
            },
    {
        let device_name = text_of(ms, Field::DeviceName)?;
        let timestamp = timestamp_of(ms)?;
        let test_name = text_of(ms, Field::TestName)?;
        let download_value = number_of(ms, Field::DownloadValue)?;
        let download_unit = text_of(ms, Field::DownloadUnit)?;
        let upload_value = number_of(ms, Field::UploadValue)?;
        let upload_unit = text_of(ms, Field::UploadUnit)?;
        let ping = number_of(ms, Field::Ping)?;
        let client_ip = text_of(ms, Field::ClientIp)?;
        let client_lon = optional_text_of(ms, Field::ClientLon)?;
        let client_lat = optional_text_of(ms, Field::ClientLat)?;
        Ok(
            RawLogRecord {
                device_name,
                timestamp,
                test_name,
                download_value,
                download_unit,
                upload_value,
                upload_unit,
                ping,
                client_ip,
                client_lon,
                client_lat,
            },
        )
    }

    /// Decodes one buffer that holds a JSON object.
    pub fn from_json(bytes: &[u8]) -> (r: Result<RawLogRecord, Error>)
        ensures
            match r {
                Ok(raw) => decoded(bytes@) == Ok::<RawModel, Failure>(raw@),
                Err(e) => decoded(bytes@) == Err::<RawModel, Failure>(e@),
            },
    {
        match parse_members(bytes) {
            Err(msg) => Err(Error::JsonParseError(msg)),
            Ok(ms) => match RawLogRecord::from_members(&ms) {
                Ok(raw) => Ok(raw),
                Err(e) => Err(Error::SchemaError(e)),
            },
        }
    }
}

/// A canonical record: one per result file whose fields and units all read.
#[derive(Debug, PartialEq)]
pub struct LogRecord {
    device_name: String,
    timestamp: Timestamp,
    test_name: String,
    download: Bandwidth,
    upload: Bandwidth,
    ping: u64,
    client_ip: String,
    client_lat: Option<String>,
    client_lon: Option<String>,
}

/// The model of a [`LogRecord`]. `ping` is 64-bit IEEE float bits.
pub ghost struct RecordModel {
    pub device_name: Seq<char>,
    pub timestamp: Timestamp,
    pub test_name: Seq<char>,
    pub download: Bandwidth,
    pub upload: Bandwidth,
    pub ping: u64,
    pub client_ip: Seq<char>,
    pub client_lat: Option<Seq<char>>,
    pub client_lon: Option<Seq<char>>,
}

impl View for LogRecord {
    type V = RecordModel;

    closed spec fn view(&self) -> RecordModel {
        RecordModel {
            device_name: self.device_name@,
            timestamp: self.timestamp,
            test_name: self.test_name@,
            download: self.download,
            upload: self.upload,
            ping: self.ping,
            client_ip: self.client_ip@,
            client_lat: opt_view(self.client_lat),
            client_lon: opt_view(self.client_lon),
        }
    }
}

/// The canonical form of a decoded record: both rates resolved and every
/// other field carried over; `None` where a unit is not in the table.
pub open spec fn canonical(raw: RawModel) -> Option<RecordModel> {
    match (
        unit_bandwidth(raw.download_unit, raw.download_value),
        unit_bandwidth(raw.upload_unit, raw.upload_value),
    ) {
        (Some(download), Some(upload)) => Some(
            RecordModel {
                device_name: raw.device_name,
                timestamp: raw.timestamp,
                test_name: raw.test_name,
                download,
                upload,
                ping: raw.ping,
                client_ip: raw.client_ip,
                client_lat: raw.client_lat,
                client_lon: raw.client_lon,
            },
        ),
        _ => None,
    }
}

/// What a buffer gives end to end: its canonical record, or why there is none.
pub open spec fn outcome(b: Seq<u8>) -> Result<RecordModel, Failure> {
    match decoded(b) {
        Err(f) => Err(f),
        Ok(raw) => match canonical(raw) {
            Some(rec) => Ok(rec),
            None => Err(Failure::Unit(raw)),
        },
    }
}

impl RawLogRecord {
    /// Resolves both rates; on an unknown unit the error carries the whole
    /// record.
    pub fn try_into(self) -> (r: Result<LogRecord, Error>)
        ensures
            match r {
                Ok(rec) => canonical(self@) == Some(rec@),
                Err(e) => canonical(self@) is None && e@ == Failure::Unit(self@),
            },
    {
        let download = match Bandwidth::resolve(self.download_unit.as_str(), self.download_value) {
            Some(b) => b,
            None => return Err(Error::ConvertRawLogError(self)),
        };
        let upload = match Bandwidth::resolve(self.upload_unit.as_str(), self.upload_value) {
            Some(b) => b,
            None => return Err(Error::ConvertRawLogError(self)),
        };
        Ok(
            LogRecord {
                device_name: self.device_name,
                timestamp: self.timestamp,
                test_name: self.test_name,
                download,
                upload,
                ping: self.ping,
                client_ip: self.client_ip,
                client_lat: self.client_lat,
                client_lon: self.client_lon,
            },
        )
    }
}

impl LogRecord {
    /// Decodes and canonicalises one buffer.
    pub fn from_json(bytes: &[u8]) -> (r: Result<LogRecord, Box<Error>>)
        ensures
            match r {
                Ok(rec) => outcome(bytes@) == Ok::<RecordModel, Failure>(rec@),
                Err(e) => outcome(bytes@) == Err::<RecordModel, Failure>((*e)@),
            },
    {
        let raw = match RawLogRecord::from_json(bytes) {
            Ok(raw) => raw,
            Err(e) => return Err(Box::new(e)),
        };
        match raw.try_into() {
            Ok(rec) => Ok(rec),
            Err(e) => Err(Box::new(e)),
        }
    }
}

impl RawLogRecord {
    pub fn test_name(&self) -> (r: &str)
        ensures
            r@ == self@.test_name,
    {
        self.test_name.as_str()
    }

    pub fn download_unit(&self) -> (r: &str)
        ensures
            r@ == self@.download_unit,
    {
        self.download_unit.as_str()
    }

    pub fn upload_unit(&self) -> (r: &str)
        ensures
            r@ == self@.upload_unit,
    {
        self.upload_unit.as_str()
    }
}

impl LogRecord {
    pub fn device_name(&self) -> (r: &str)
        ensures
            r@ == self@.device_name,
    {
        self.device_name.as_str()
    }

    pub fn timestamp(&self) -> (r: Timestamp)
        ensures
            r == self@.timestamp,
    {
        self.timestamp
    }

    pub fn test_name(&self) -> (r: &str)
        ensures
            r@ == self@.test_name,
    {
        self.test_name.as_str()
    }

    pub fn download(&self) -> (r: Bandwidth)
        ensures
            r == self@.download,
    {
        self.download
    }

    pub fn upload(&self) -> (r: Bandwidth)
        ensures
            r == self@.upload,
    {
        self.upload
    }

    /// The latency, as the bit pattern of the 64-bit IEEE float read from the
    /// file.
    pub fn ping_bits(&self) -> (r: u64)
        ensures
            r == self@.ping,
    {
        self.ping
    }

    pub fn client_ip(&self) -> (r: &str)
        ensures
            r@ == self@.client_ip,
    {
        self.client_ip.as_str()
    }

    pub fn client_lat(&self) -> (r: &Option<String>)
        ensures
            opt_view(*r) == self@.client_lat,
    {
        &self.client_lat
    }

    pub fn client_lon(&self) -> (r: &Option<String>)
        ensures
            opt_view(*r) == self@.client_lon,
    {
        &self.client_lon
    }
}

/// How a rate resolves depends on the unit text alone: two magnitudes under
/// one unit resolve to the same variant, that is the same power of `1024`,
/// each keeping its own magnitude.
pub proof fn lemma_resolution_depends_on_unit_only(unit: Seq<char>, v: u64, w: u64)
    ensures
        unit_bandwidth(unit, v) is Some <==> unit_bandwidth(unit, w) is Some,
        unit_bandwidth(unit, v) matches Some(a) ==> unit_bandwidth(unit, w) matches Some(b) && (
        a.spec_scale() == b.spec_scale() && a.spec_magnitude() == v && b.spec_magnitude() == w),
{
}

/// A decoded record whose download or upload unit is not in the table never
/// becomes a canonical record: the outcome is a unit failure that carries the
/// decoded record itself.
pub proof fn lemma_unknown_unit_rejected(b: Seq<u8>, raw: RawModel)
    requires
        decoded(b) == Ok::<RawModel, Failure>(raw),
        !known_unit(raw.download_unit) || !known_unit(raw.upload_unit),
    ensures
        outcome(b) == Err::<RecordModel, Failure>(Failure::Unit(raw)),
{
}

/// An object that lacks every accepted key of a required field never decodes:
/// the outcome is a schema failure, never a record with a default value.
pub proof fn lemma_missing_field_rejected(b: Seq<u8>, f: Field)
    requires
        json_members_of(b) is Some,
        required(f),
        lookup(json_members_of(b)->0, accepted_keys(f)) is None,
    ensures
        decoded(b) matches Err(Failure::Schema(_)),
        outcome(b) matches Err(Failure::Schema(_)),
{
}

/// Decoding and canonicalising is a function of the bytes: two buffers with
/// the same bytes give the same outcome, records and failures alike.
pub proof fn lemma_outcome_is_pure(b1: Seq<u8>, b2: Seq<u8>)
    requires
        b1 == b2,
    ensures
        decoded(b1) == decoded(b2),
        outcome(b1) == outcome(b2),
{
}

} // verus!
