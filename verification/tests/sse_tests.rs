use mystock::error::SysError;
use mystock::sse::{EstSseClient, SseData, SseEvent, SseStep};

#[test]
fn stream_addresses() {
    let c = EstSseClient::new("600000".to_string(), 1, 0);
    assert_eq!(
        c.url.as_deref(),
        Some("https://28.push2.eastmoney.com/api/qt/stock/trends2/sse?fields1=f1,f2,f3,f4,f5,f6,f7,f8,f9,f10,f11,f12,f13,f14,f17&fields2=f51,f52,f53,f54,f55,f56,f57,f58&mpi=1000&ut=fa5fd1943c7b386f172d6893dbfba10b&secid=1.600000&ndays=1&iscr=0&iscca=0")
    );
    let d = EstSseClient::new("000004".to_string(), 0, 1);
    assert_eq!(
        d.url.as_deref(),
        Some("https://89.push2.eastmoney.com/api/qt/stock/details/sse?fields1=f1,f2,f3,f4&fields2=f51,f52,f53,f54,f55&mpi=2000&ut=bd1d9ddb04089700cf9c27f6f7426281&fltt=2&pos=-0&secid=0.000004")
    );
    let none = EstSseClient::new("000004".to_string(), 0, 7);
    assert_eq!(none.url, None);
    assert_eq!(
        none.can_start(),
        Err(SysError::Anyhow("init failed. no event source".to_string()))
    );
    assert_eq!(c.can_start(), Ok(()));
}

#[test]
fn stream_events() {
    assert_eq!(EstSseClient::on_event(&SseEvent::Open, false), SseStep::Continue);
    assert_eq!(EstSseClient::on_event(&SseEvent::Message, false), SseStep::Forward);
    assert_eq!(
        EstSseClient::on_event(&SseEvent::Message, true),
        SseStep::Stop(SysError::EstSseError(5001, "tx isClosed".to_string()))
    );
    assert_eq!(
        EstSseClient::on_event(&SseEvent::Failure("eof".to_string()), false),
        SseStep::Stop(SysError::ReqwestEventSourceError("eof".to_string()))
    );
}

#[test]
fn trends_in_messages() {
    let lines = vec!["2024-12-02 09:31,1,2,3,4,5,6,7".to_string()];
    assert_eq!(
        EstSseClient::message_trends(Some(SseData::Trends2(lines.clone()))),
        Some(lines)
    );
    assert_eq!(EstSseClient::message_trends(Some(SseData::Details)), None);
    assert_eq!(EstSseClient::message_trends(None), None);
}
