use speedometer::log::{LogRecord, RawLogRecord};

const NDT5_LOG: &[u8] = br#"{"SchemaVersion":1,"TestName":"ndt5","TestStartTime":"2023-03-01T10:00:00.123456","TestEndTime":"2023-03-01T10:00:20.654321","MurakamiLocation":"devicename","MurakamiConnectionType":"wired","MurakamiNetworkType":"home","MurakamiDeviceID":"dev-1","ServerName":"ndt-mlab1-lhr01","ServerIP":"203.0.113.10","ClientIP":"192.0.2.1","DownloadUUID":"abc","DownloadValue":91.24,"DownloadUnit":"Mbit/s","DownloadError":null,"UploadValue":9.5,"UploadUnit":"Mbit/s","UploadError":null,"DownloadRetransValue":0.1,"DownloadRetransUnit":"%","MinRTTValue":12.0,"MinRTTUnit":"ms"}
"#;

const NDT7_LOG: &[u8] = br#"{"SchemaVersion":1,"TestName":"ndt7","TestStartTime":"2023-03-01T11:00:00.5","TestEndTime":"2023-03-01T11:00:21","MurakamiLocation":"devicename2","MurakamiConnectionType":"wifi","MurakamiNetworkType":"home","MurakamiDeviceID":"dev-2","ServerName":"ndt-mlab2-lhr01","ServerIP":"203.0.113.11","ClientIP":"192.0.2.2","DownloadUUID":"def","DownloadValue":120.5,"DownloadUnit":"Mbit/s","DownloadError":null,"UploadValue":20.25,"UploadUnit":"Mbit/s","UploadError":null,"DownloadRetransValue":0.02,"DownloadRetransUnit":"%","MinRTTValue":8.5,"MinRTTUnit":"ms"}
"#;

const SINGLE_STREAM_LOG: &[u8] = br#"{"SchemaVersion":1,"TestName":"speedtest-cli-single-stream","TestStartTime":"2023-03-01T12:00:00.000001","TestEndTime":"2023-03-01T12:00:30","MurakamiLocation":"devicename3","MurakamiConnectionType":"wired","MurakamiNetworkType":"home","MurakamiDeviceID":"dev-3","ServerURL":"http://speedtest.example.net/upload.php","ServerName":"London","ServerCountry":"United Kingdom","ServerSponsor":"Example","ServerID":"1234","ServerLat":"51.5","ServerLon":"-0.13","ServerDistance":3.2,"ServerLatency":15.1,"DownloadValue":93871234.5,"DownloadUnit":"Bit/s","UploadValue":18234567.25,"UploadUnit":"Bit/s","Ping":15.1,"PingUnit":"ms","BytesSent":24000000,"BytesReceived":120000000,"Share":null,"Timestamp":"2023-03-01T12:00:00.000001Z","ClientIP":"192.0.2.3","ClientLat":"51.5074","ClientLon":"-0.1278","ClientISP":"Example ISP","ClientISPRating":"3.7","ClientRating":"0","ClientLoggedIn":"0","ClientCountry":"GB"}
"#;

const MULTI_STREAM_LOG: &[u8] = br#"{"SchemaVersion":1,"TestName":"speedtest-cli-multi-stream","TestStartTime":"2023-03-01T13:00:00","TestEndTime":"2023-03-01T13:00:30","MurakamiLocation":"devicename4","MurakamiConnectionType":"wired","MurakamiNetworkType":"home","MurakamiDeviceID":"dev-4","ServerURL":"http://speedtest.example.net/upload.php","ServerName":"London","ServerCountry":"United Kingdom","ServerSponsor":"Example","ServerID":"1234","ServerLat":"51.5","ServerLon":"-0.13","ServerDistance":3.2,"ServerLatency":11,"DownloadValue":283746123,"DownloadUnit":"Bit/s","UploadValue":38123456.5,"UploadUnit":"Bit/s","Ping":11,"PingUnit":"ms","BytesSent":48000000,"BytesReceived":360000000,"Share":null,"Timestamp":"2023-03-01T13:00:00.000001Z","ClientIP":"192.0.2.4","ClientLat":null,"ClientLon":null,"ClientISP":"Example ISP","ClientISPRating":"3.7","ClientRating":"0","ClientLoggedIn":"0","ClientCountry":"GB"}
"#;

#[test]
fn parse_logfile_ndt5() {
    let log: RawLogRecord = RawLogRecord::from_json(NDT5_LOG).expect("raw log must parse");
    let log: LogRecord = log.try_into().expect("log must convert successfully");
    assert_eq!(log.test_name(), "ndt5");
}

#[test]
fn parse_logfile_ndt7() {
    let log: RawLogRecord = RawLogRecord::from_json(NDT7_LOG).expect("raw log must parse");
    let log: LogRecord = log.try_into().expect("log must convert successfully");
    assert_eq!(log.test_name(), "ndt7");
}

#[test]
fn parse_logfile_single_stream() {
    let log: RawLogRecord =
        RawLogRecord::from_json(SINGLE_STREAM_LOG).expect("raw log must parse");
    let log: LogRecord = log.try_into().expect("log must convert successfully");
    assert_eq!(log.test_name(), "speedtest-cli-single-stream");
}

#[test]
fn parse_logfile_multi_stream() {
    let log: RawLogRecord =
        RawLogRecord::from_json(MULTI_STREAM_LOG).expect("raw log must parse");
    let log: LogRecord = log.try_into().expect("log must convert successfully");
    assert_eq!(log.test_name(), "speedtest-cli-multi-stream");
}

#[test]
fn ndt5_fields_carried_over() {
    let log = LogRecord::from_json(NDT5_LOG).expect("ndt5 sample must convert");
    assert_eq!(log.device_name(), "devicename");
    assert_eq!(log.client_ip(), "192.0.2.1");
    assert_eq!(f64::from_bits(log.ping_bits()), 12.0);
    assert_eq!(log.download().scale(), 2);
    assert_eq!(f64::from_bits(log.download().magnitude_bits()), 91.24);
    assert_eq!(f64::from_bits(log.upload().magnitude_bits()), 9.5);
    assert_eq!(*log.client_lat(), None);
    assert_eq!(*log.client_lon(), None);
    let t = log.timestamp();
    assert_eq!(
        (t.year, t.month, t.day, t.hour, t.minute, t.second, t.nanosecond),
        (2023, 3, 1, 10, 0, 0, 123_456_000)
    );
}

#[test]
fn single_stream_reads_ping_and_geo() {
    let log = LogRecord::from_json(SINGLE_STREAM_LOG).expect("single-stream sample must convert");
    assert_eq!(f64::from_bits(log.ping_bits()), 15.1);
    assert_eq!(log.download().scale(), 0);
    assert_eq!(f64::from_bits(log.download().magnitude_bits()), 93871234.5);
    assert_eq!(log.client_lat().as_deref(), Some("51.5074"));
    assert_eq!(log.client_lon().as_deref(), Some("-0.1278"));
    assert_eq!(log.client_ip(), "192.0.2.3");
}

#[test]
fn multi_stream_integer_numbers_and_null_geo() {
    let log = LogRecord::from_json(MULTI_STREAM_LOG).expect("multi-stream sample must convert");
    assert_eq!(f64::from_bits(log.ping_bits()), 11.0);
    assert_eq!(f64::from_bits(log.download().magnitude_bits()), 283746123.0);
    assert_eq!(*log.client_lat(), None);
    assert_eq!(*log.client_lon(), None);
    assert_eq!(log.timestamp().nanosecond, 0);
}

#[test]
fn decoding_twice_gives_identical_records() {
    for buf in [NDT5_LOG, NDT7_LOG, SINGLE_STREAM_LOG, MULTI_STREAM_LOG] {
        let a = LogRecord::from_json(buf).expect("sample must convert");
        let b = LogRecord::from_json(buf).expect("sample must convert");
        assert_eq!(a, b);
        assert_eq!(a.download().magnitude_bits(), b.download().magnitude_bits());
        assert_eq!(a.ping_bits(), b.ping_bits());
    }
}
