use spotify_lyrics::{
    check_lyrics_status, decode_lines, is_success_status, lyrics_request, AuthCache, AuthStep,
    Authorization, Error, WireLine,
};

fn auth(token: &str, expiration_ms: u64) -> Authorization {
    Authorization {
        client_id: "c1".to_string(),
        access_token: token.to_string(),
        expiration_ms,
        is_anonymous: false,
    }
}

#[test]
fn new_session_fetches_token() {
    let cache = AuthCache::new();
    assert!(matches!(cache.next_step(0), AuthStep::FetchToken));
}

#[test]
fn expired_token_is_refreshed_once() {
    let mut cache = AuthCache::new();
    cache.accept_token(Some(auth("old", 1_000))).unwrap();
    assert!(matches!(cache.next_step(1_000), AuthStep::FetchToken));
    assert!(matches!(cache.next_step(1_001), AuthStep::FetchToken));
    let fresh = cache.accept_token(Some(auth("new", 5_000))).unwrap();
    assert_eq!(fresh.access_token, "new");
    match cache.next_step(1_001) {
        AuthStep::Ready(a) => assert_eq!(a, auth("new", 5_000)),
        AuthStep::FetchToken => panic!("a second fetch was asked for"),
    }
}

#[test]
fn valid_token_is_reused_unchanged() {
    let mut cache = AuthCache::new();
    cache.accept_token(Some(auth("t", 1_000))).unwrap();
    match cache.next_step(999) {
        AuthStep::Ready(a) => assert_eq!(a, auth("t", 1_000)),
        AuthStep::FetchToken => panic!("valid token refetched"),
    }
    assert!(matches!(cache.next_step(1_000), AuthStep::FetchToken));
    assert!(matches!(cache.next_step(1_001), AuthStep::FetchToken));
}

#[test]
fn failed_refresh_keeps_cached_record() {
    let mut cache = AuthCache::new();
    cache.accept_token(Some(auth("t", 1_000))).unwrap();
    assert_eq!(cache.accept_token(None), Err(Error::AuthFetchError));
    assert_eq!(cache.auth, Some(auth("t", 1_000)));
}

#[test]
fn unauthorized_lyrics_reply_carries_status() {
    assert_eq!(check_lyrics_status(401), Err(Error::LyricsFetchError { status: 401 }));
    assert_eq!(check_lyrics_status(404), Err(Error::LyricsFetchError { status: 404 }));
    assert_eq!(check_lyrics_status(199), Err(Error::LyricsFetchError { status: 199 }));
    assert_eq!(check_lyrics_status(300), Err(Error::LyricsFetchError { status: 300 }));
}

#[test]
fn successful_lyrics_reply_is_accepted() {
    assert_eq!(check_lyrics_status(200), Ok(()));
    assert_eq!(check_lyrics_status(299), Ok(()));
    assert!(is_success_status(204));
    assert!(!is_success_status(500));
}

#[test]
fn lyrics_request_has_url_and_headers() {
    let r = lyrics_request("0Vm2QYFSU2RWSPAReJR80D", &auth("t1", u64::MAX));
    assert_eq!(
        r.url,
        "https://spclient.wg.spotify.com/color-lyrics/v2/track/0Vm2QYFSU2RWSPAReJR80D?format=json"
    );
    assert_eq!(r.authorization, "Bearer t1");
    assert_eq!(r.app_platform, "WebPlayer");
}

#[test]
fn cookie_session_end_to_end() {
    let mut cache = AuthCache::new();
    let now: u64 = 1_700_000_000_000;
    let mut token_calls = 0;
    let a = match cache.next_step(now) {
        AuthStep::Ready(a) => a,
        AuthStep::FetchToken => {
            token_calls += 1;
            let reply = Authorization {
                client_id: "c1".to_string(),
                access_token: "t1".to_string(),
                expiration_ms: 4_102_444_800_000,
                is_anonymous: false,
            };
            cache.accept_token(Some(reply)).unwrap()
        }
    };
    assert_eq!(token_calls, 1);
    let req = lyrics_request("0Vm2QYFSU2RWSPAReJR80D", &a);
    assert_eq!(req.authorization, "Bearer t1");
    assert_eq!(check_lyrics_status(200), Ok(()));
    let lines = decode_lines(vec![WireLine {
        start_time_ms: "12345".to_string(),
        words: "hello".to_string(),
        syllables: vec![],
        end_time_ms: "13000".to_string(),
    }])
    .unwrap();
    assert_eq!(lines[0].start_time_ms, 12345);
    assert!(matches!(cache.next_step(now + 1), AuthStep::Ready(_)));
}
