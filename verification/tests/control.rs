use swupdate_ipc::control::{
    ack_result, get_swupdate_var_msg, hw_revision_from_response, install_msg,
    response_from_bytes, set_aes_key_msg, set_delta_url_msg, set_swupdate_var_msg,
    set_update_state_msg, set_versions_range_msg, status_from_response, subprocess_cmd_msg,
    swupdate_var_from_response, update_state_from_response,
};
use swupdate_ipc::wire::{
    cstr_from_bytes, ipc_message_to_bytes, write_cstr, MsgType, RawIpcMessage, RawRevisionsData,
    RawStatusData, RawVarsData, IPC_MAGIC, IPC_MESSAGE_SIZE,
};
use swupdate_ipc::{
    Error, InstallRequest, RecoveryStatus, RunMode, Source, SubprocessCmd, UpdateState,
};

#[test]
fn install_message_carries_request() {
    let req = InstallRequest::new().source(Source::Local).mode(RunMode::DryRun).info("fw 2");
    let msg = install_msg(&req);
    assert_eq!(msg.magic, IPC_MAGIC);
    assert_eq!(msg.msg_type, 0);
    let inst = msg.data.instmsg();
    assert_eq!(inst.req.source, 4);
    assert_eq!(inst.req.dry_run, 1);
    assert_eq!(inst.len, 0);
    assert_eq!(cstr_from_bytes(&inst.req.info), "fw 2");
}

#[test]
fn set_update_state_message() {
    let msg = set_update_state_msg(UpdateState::Testing);
    assert_eq!(msg.msg_type(), Some(MsgType::SetUpdateState));
    assert_eq!(&msg.data.bytes[0..4], &[b'2', 0, 0, 0]);
    assert!(msg.data.bytes[4..].iter().all(|&b| b == 0));
}

#[test]
fn string_argument_messages() {
    let m = set_aes_key_msg("00ff", "aa");
    assert_eq!(m.msg_type(), Some(MsgType::SetAesKey));
    assert_eq!(cstr_from_bytes(&m.data.aeskeymsg().key_ascii), "00ff");
    assert_eq!(cstr_from_bytes(&m.data.aeskeymsg().ivt_ascii), "aa");

    let m = set_versions_range_msg("1.0", "2.0", "1.5", "stable");
    let v = m.data.versions();
    assert_eq!(cstr_from_bytes(&v.minimum_version), "1.0");
    assert_eq!(cstr_from_bytes(&v.maximum_version), "2.0");
    assert_eq!(cstr_from_bytes(&v.current_version), "1.5");
    assert_eq!(cstr_from_bytes(&v.update_type), "stable");

    let m = set_swupdate_var_msg("ns", "n", "v");
    let v = m.data.vars();
    assert_eq!(
        (cstr_from_bytes(&v.varnamespace), cstr_from_bytes(&v.varname), cstr_from_bytes(&v.varvalue)),
        ("ns".to_string(), "n".to_string(), "v".to_string())
    );

    let m = get_swupdate_var_msg("ns", "n");
    assert_eq!(m.msg_type(), Some(MsgType::GetSwupdateVars));
    assert_eq!(m.data.vars().varvalue, [0u8; 256]);

    let m = set_delta_url_msg("a.img", "http://h/a");
    assert_eq!(cstr_from_bytes(&m.data.dwl_url().filename), "a.img");
    assert_eq!(cstr_from_bytes(&m.data.dwl_url().url), "http://h/a");
}

#[test]
fn subprocess_message() {
    let m = subprocess_cmd_msg(Source::Suricatta, SubprocessCmd::Enable, 30);
    let p = m.data.procmsg();
    assert_eq!((p.source, p.cmd, p.timeout, p.len), (2, 2, 30, 0));
    assert_eq!(m.msg_type(), Some(MsgType::SwupdateSubprocess));
}

#[test]
fn ack_and_nack() {
    assert!(ack_result(&RawIpcMessage::new(MsgType::Ack)).is_ok());
    assert!(matches!(ack_result(&RawIpcMessage::new(MsgType::Nack)), Err(Error::Rejected)));
    match ack_result(&RawIpcMessage::new(MsgType::GetStatus)) {
        Err(Error::Protocol(m)) => assert_eq!(m, "expected ACK/NACK, got Some(GetStatus)"),
        other => panic!("unexpected {other:?}"),
    }
    let mut odd = RawIpcMessage::new(MsgType::Ack);
    odd.msg_type = 99;
    match ack_result(&odd) {
        Err(Error::Protocol(m)) => assert_eq!(m, "expected ACK/NACK, got None"),
        other => panic!("unexpected {other:?}"),
    }
}

#[test]
fn response_size_checked() {
    match response_from_bytes(&[0u8; 10]) {
        Err(Error::Protocol(m)) => assert_eq!(m, "response size mismatch"),
        other => panic!("unexpected {other:?}"),
    }
    let bytes = ipc_message_to_bytes(&RawIpcMessage::new(MsgType::Ack));
    assert_eq!(bytes.len(), IPC_MESSAGE_SIZE);
    let m = response_from_bytes(&bytes).unwrap();
    assert_eq!(m.msg_type(), Some(MsgType::Ack));
}

#[test]
fn status_reply() {
    let mut resp = RawIpcMessage::new(MsgType::GetStatus);
    let mut st = RawStatusData { current: 2, last_result: 3, error: -4, desc: [0; 2048] };
    write_cstr(&mut st.desc, "running");
    resp.data.set_status(&st);
    let s = status_from_response(&resp).unwrap();
    assert_eq!(s.current, RecoveryStatus::Run);
    assert_eq!(s.last_result, RecoveryStatus::Success);
    assert_eq!(s.error, -4);
    assert_eq!(s.description, "running");

    st.current = 42;
    resp.data.set_status(&st);
    match status_from_response(&resp) {
        Err(Error::Protocol(m)) => assert_eq!(m, "invalid status: 42"),
        other => panic!("unexpected {other:?}"),
    }
    st.current = 0;
    st.last_result = -2147483648;
    resp.data.set_status(&st);
    match status_from_response(&resp) {
        Err(Error::Protocol(m)) => assert_eq!(m, "invalid last_result: -2147483648"),
        other => panic!("unexpected {other:?}"),
    }
}

#[test]
fn update_state_reply() {
    let resp = set_update_state_msg(UpdateState::Wait);
    assert_eq!(update_state_from_response(&resp).unwrap(), UpdateState::Wait);
    let mut bad = RawIpcMessage::new(MsgType::GetUpdateState);
    let mut m = [0u8; 128];
    m[..4].copy_from_slice(&(-7i32).to_le_bytes());
    bad.data.set_msg(&m);
    match update_state_from_response(&bad) {
        Err(Error::Protocol(s)) => assert_eq!(s, "invalid update state: -7"),
        other => panic!("unexpected {other:?}"),
    }
}

#[test]
fn revision_and_var_replies() {
    let mut resp = RawIpcMessage::new(MsgType::GetHwRevision);
    let mut r = RawRevisionsData { boardname: [0; 256], revision: [0; 256] };
    write_cstr(&mut r.boardname, "board");
    write_cstr(&mut r.revision, "1.0");
    resp.data.set_revisions(&r);
    let hw = hw_revision_from_response(&resp);
    assert_eq!((hw.boardname.as_str(), hw.revision.as_str()), ("board", "1.0"));

    let mut resp = RawIpcMessage::new(MsgType::GetSwupdateVars);
    let mut v = RawVarsData { varnamespace: [0; 256], varname: [0; 256], varvalue: [0; 256] };
    write_cstr(&mut v.varnamespace, "ns");
    write_cstr(&mut v.varname, "k");
    write_cstr(&mut v.varvalue, "val");
    resp.data.set_vars(&v);
    let var = swupdate_var_from_response(&resp);
    assert_eq!((var.namespace.as_str(), var.name.as_str(), var.value.as_str()), ("ns", "k", "val"));
}
