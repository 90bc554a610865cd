//! The error code registry and the two-layer error value model: a bare
//! coded error (`Error`) and a coded error with free-form context
//! (`ExtraDescError`), together with the adapters that lift foreign
//! failures into the taxonomy.

use crate::text::spec_dec;
use crate::text::u16_to_dec;
use diesel::result::Error as DieselError;
use serde_json::Error as JsonError;
use toml::de::Error as TomlDeError;
use vstd::prelude::*;

verus! {

/// A coded error: wraps exactly one numeric code. Equality is by code.
/// An unregistered code is legal; its reason lookups return `None`.
#[derive(Debug, PartialEq, Eq, Structural, Clone, Copy)]
pub struct Error(pub u16);

//I/O Error 1001-2000
#[allow(non_upper_case_globals)]
pub const FileNotFound: u16 = 1001;

#[allow(non_upper_case_globals)]
pub const PermissionDenied: u16 = 1002;

#[allow(non_upper_case_globals)]
pub const ConnectionRefused: u16 = 1003;

#[allow(non_upper_case_globals)]
pub const ConnectionReset: u16 = 1004;

#[allow(non_upper_case_globals)]
pub const ConnectionAborted: u16 = 1005;

#[allow(non_upper_case_globals)]
pub const NotConnected: u16 = 1006;

#[allow(non_upper_case_globals)]
pub const AddrInUse: u16 = 1007;

#[allow(non_upper_case_globals)]
pub const AddrNotAvailable: u16 = 1008;

#[allow(non_upper_case_globals)]
pub const BrokenPipe: u16 = 1009;

#[allow(non_upper_case_globals)]
pub const AlreadyExists: u16 = 1010;

#[allow(non_upper_case_globals)]
pub const WouldBlock: u16 = 1011;

#[allow(non_upper_case_globals)]
pub const InvalidInput: u16 = 1012;

#[allow(non_upper_case_globals)]
pub const InvalidData: u16 = 1013;

#[allow(non_upper_case_globals)]
pub const TimedOut: u16 = 1014;

#[allow(non_upper_case_globals)]
pub const WriteZero: u16 = 1015;

#[allow(non_upper_case_globals)]
pub const Interrupted: u16 = 1016;

#[allow(non_upper_case_globals)]
pub const Other: u16 = 1017;

#[allow(non_upper_case_globals)]
pub const UnexpectedEof: u16 = 1018;

//Message Error 2001-3000
#[allow(non_upper_case_globals)]
pub const InvalidMessageQuque: u16 = 2001;

#[allow(non_upper_case_globals)]
pub const ConnectionMessageQuqueError: u16 = 2002;

#[allow(non_upper_case_globals)]
pub const SubscribeMessageQuqueFail: u16 = 2003;

#[allow(non_upper_case_globals)]
pub const FetchMessageFail: u16 = 2004;

#[allow(non_upper_case_globals)]
pub const FetchMessageTimeout: u16 = 2005;

#[allow(non_upper_case_globals)]
pub const InvalidMessageData: u16 = 2006;

#[allow(non_upper_case_globals)]
pub const InvalidCommand: u16 = 2007;

#[allow(non_upper_case_globals)]
pub const InvalidUseRule: u16 = 2008;

//DataBase Error 3001-4000
#[allow(non_upper_case_globals)]
pub const DataBaseInvalidQuery: u16 = 3001;

#[allow(non_upper_case_globals)]
pub const DataBaseError: u16 = 3002;

#[allow(non_upper_case_globals)]
pub const DataBaseNotFound: u16 = 3003;

#[allow(non_upper_case_globals)]
pub const InvalidConnection: u16 = 3101;

//Device Error 4001-5000
#[allow(non_upper_case_globals)]
pub const ConnectionDeviceError: u16 = 4001;

#[allow(non_upper_case_globals)]
pub const ConnectionDeviceTimeout: u16 = 4002;

#[allow(non_upper_case_globals)]
pub const DeviceAddrInvalid: u16 = 4003;

#[allow(non_upper_case_globals)]
pub const DeviceNotFound: u16 = 4004;

#[allow(non_upper_case_globals)]
pub const InvalidDeviceType: u16 = 4005;

#[allow(non_upper_case_globals)]
pub const SendDataTimeout: u16 = 4006;

#[allow(non_upper_case_globals)]
pub const SendDataFail: u16 = 4007;

#[allow(non_upper_case_globals)]
pub const InvalidSendData: u16 = 4008;

#[allow(non_upper_case_globals)]
pub const ReceiveDataTimeout: u16 = 4009;

#[allow(non_upper_case_globals)]
pub const ReceiveDataFail: u16 = 4010;

#[allow(non_upper_case_globals)]
pub const ReceiveUnexpectedEof: u16 = 4011;

#[allow(non_upper_case_globals)]
pub const DeviceAlreadyExist: u16 = 4012;

#[allow(non_upper_case_globals)]
pub const DeviceNotUsed: u16 = 4013;

#[allow(non_upper_case_globals)]
pub const DeviceReportError: u16 = 4014;

//System Error 5001-6000
#[allow(non_upper_case_globals)]
pub const UnexpectedErrorOccured: u16 = 5001;

#[allow(non_upper_case_globals)]
pub const ServerRegisterFail: u16 = 5002;

#[allow(non_upper_case_globals)]
pub const ConfigurationInvalid: u16 = 5003;

#[allow(non_upper_case_globals)]
pub const UnKnowError: u16 = 5100;

//Token Error 6001-7000
#[allow(non_upper_case_globals)]
pub const RoleTypeError: u16 = 6001;

//translate Error 7001-7999
#[allow(non_upper_case_globals)]
pub const TransInitError: u16 = 7001;

#[allow(non_upper_case_globals)]
pub const TransRegisterError: u16 = 7002;

#[allow(non_upper_case_globals)]
pub const CheckError: u16 = 7003;

#[allow(non_upper_case_globals)]
pub const TransInnerError: u16 = 7004;

/// The English reason of each registered code; `None` for every other code.
pub open spec fn spec_reason_en(code: u16) -> Option<Seq<char>> {
    match code {
        1001u16 => Some("file not found"@),
        1002u16 => Some("permission denied"@),
        1003u16 => Some("connection refused"@),
        1004u16 => Some("connection reset"@),
        1005u16 => Some("connection aborted"@),
        1006u16 => Some("not connected"@),
        1007u16 => Some("address in use"@),
        1008u16 => Some("address not available"@),
        1009u16 => Some("broken pipe"@),
        1010u16 => Some("entity already exists"@),
        1011u16 => Some("operation would block"@),
        1012u16 => Some("invalid input parameter"@),
        1013u16 => Some("invalid data"@),
        1014u16 => Some("timed out"@),
        1015u16 => Some("write zero"@),
        1016u16 => Some("operation interrupted"@),
        1017u16 => Some("other os error"@),
        1018u16 => Some("unexpected end of file"@),
        2001u16 => Some("invalid message quque"@),
        2002u16 => Some("connection message quque error"@),
        2003u16 => Some("subscribe message quque fail"@),
        2004u16 => Some("fetch message fail"@),
        2005u16 => Some("fetch message timeout"@),
        2006u16 => Some("invalid message data"@),
        2007u16 => Some("invalid command"@),
        2008u16 => Some("invalid use rule"@),
        3001u16 => Some("dataBase invalid query"@),
        3002u16 => Some("database error"@),
        3003u16 => Some("result not found"@),
        3101u16 => Some("DataBase Invalid Connection"@),
        4001u16 => Some("connection device error"@),
        4002u16 => Some("connection device timeout"@),
        4003u16 => Some("device address invalid"@),
        4004u16 => Some("device not found"@),
        4005u16 => Some("invalid device type"@),
        4006u16 => Some("send data timeout"@),
        4007u16 => Some("send data fail"@),
        4008u16 => Some("invalid send data"@),
        4009u16 => Some("receive data timeout"@),
        4010u16 => Some("receive data fail"@),
        4011u16 => Some("receive unexpected eof"@),
        4012u16 => Some("device already exist"@),
        4013u16 => Some("device not used"@),
        4014u16 => Some("device report error"@),
        5001u16 => Some("unexpected error occured"@),
        5002u16 => Some("server register fail"@),
        5003u16 => Some("configuration invalid"@),
        5100u16 => Some("unknow error"@),
        6001u16 => Some("role type error"@),
        7001u16 => Some("translate init error"@),
        7002u16 => Some("translate register error"@),
        7003u16 => Some("translate check error"@),
        7004u16 => Some("translate inner error"@),
        _ => None,
    }
}

/// The localized (Chinese) reason of each registered code; `None` for
/// every other code.
pub open spec fn spec_reason_cn(code: u16) -> Option<Seq<char>> {
    match code {
        1001u16 => Some("文件未发现"@),
        1002u16 => Some("操作被拒绝"@),
        1003u16 => Some("远程服务器连接被拒绝"@),
        1004u16 => Some("远程服务器连接被重置"@),
        1005u16 => Some("远程服务器连接被中止"@),
        1006u16 => Some("网络操作失败，没有连接"@),
        1007u16 => Some("Socket地址被占用"@),
        1008u16 => Some("请求的地址不存在"@),
        1009u16 => Some("操作失败，因为管道已关闭"@),
        1010u16 => Some("文件已存在"@),
        1011u16 => Some("操作需要阻塞才能完成"@),
        1012u16 => Some("参数错误"@),
        1013u16 => Some("数据无效"@),
        1014u16 => Some("操作超时"@),
        1015u16 => Some("写入时返回空数据"@),
        1016u16 => Some("操作中断"@),
        1017u16 => Some("其他I/O错误"@),
        1018u16 => Some("操作需要阻塞才能完成"@),
        2001u16 => Some("无效的消息队列类型"@),
        2002u16 => Some("连接消息队列失败"@),
        2003u16 => Some("订阅消息队列失败"@),
        2004u16 => Some("获取消息失败"@),
        2005u16 => Some("获取消息超时"@),
        2006u16 => Some("无效的消息格式"@),
        2007u16 => Some("无效的消息指令"@),
        2008u16 => Some("无效的规则"@),
        3001u16 => Some("数据库查询参数错误"@),
        3002u16 => Some("数据库返回错误"@),
        3003u16 => Some("没有查询到结果"@),
        3101u16 => Some("数据连接无效"@),
        4001u16 => Some("连接设备失败"@),
        4002u16 => Some("连接设备超时"@),
        4003u16 => Some("设备地址无效"@),
        4004u16 => Some("设备不存在"@),
        4005u16 => Some("不支持的设备类型"@),
        4006u16 => Some("发送数据超时"@),
        4007u16 => Some("发送数据失败"@),
        4008u16 => Some("发送数据无效"@),
        4009u16 => Some("接收数据超时"@),
        4010u16 => Some("接收数据失败"@),
        4011u16 => Some("设备连接异常结束"@),
        4012u16 => Some("设备已存在"@),
        4013u16 => Some("设备不可用"@),
        4014u16 => Some("设备执行指令报错"@),
        5001u16 => Some("发生意外错误"@),
        5002u16 => Some("服务注册失败"@),
        5003u16 => Some("配置无效"@),
        5100u16 => Some("未定义错误"@),
        6001u16 => Some("权限类型不存在"@),
        7001u16 => Some("翻译器初始化错误"@),
        7002u16 => Some("翻译器注册错误"@),
        7003u16 => Some("翻译check错误"@),
        7004u16 => Some("翻译内部错误"@),
        _ => None,
    }
}

/// A code stands in the registry exactly when it has an English reason.
pub open spec fn is_registered(code: u16) -> bool {
    spec_reason_en(code) is Some
}

/// Every registered code carries both reasons, and both are non-empty.
pub proof fn lemma_registered_reason_nonempty(c: u16)
    requires
        is_registered(c),
    ensures
        spec_reason_en(c) matches Some(e) && e.len() > 0,
        spec_reason_cn(c) matches Some(n) && n.len() > 0,
{
    reveal_strlit("file not found");
    reveal_strlit("permission denied");
    reveal_strlit("connection refused");
    reveal_strlit("connection reset");
    reveal_strlit("connection aborted");
    reveal_strlit("not connected");
    reveal_strlit("address in use");
    reveal_strlit("address not available");
    reveal_strlit("broken pipe");
    reveal_strlit("entity already exists");
    reveal_strlit("operation would block");
    reveal_strlit("invalid input parameter");
    reveal_strlit("invalid data");
    reveal_strlit("timed out");
    reveal_strlit("write zero");
    reveal_strlit("operation interrupted");
    reveal_strlit("other os error");
    reveal_strlit("unexpected end of file");
    reveal_strlit("invalid message quque");
    reveal_strlit("connection message quque error");
    reveal_strlit("subscribe message quque fail");
    reveal_strlit("fetch message fail");
    reveal_strlit("fetch message timeout");
    reveal_strlit("invalid message data");
    reveal_strlit("invalid command");
    reveal_strlit("invalid use rule");
    reveal_strlit("dataBase invalid query");
    reveal_strlit("database error");
    reveal_strlit("result not found");
    reveal_strlit("DataBase Invalid Connection");
    reveal_strlit("connection device error");
    reveal_strlit("connection device timeout");
    reveal_strlit("device address invalid");
    reveal_strlit("device not found");
    reveal_strlit("invalid device type");
    reveal_strlit("send data timeout");
    reveal_strlit("send data fail");
    reveal_strlit("invalid send data");
    reveal_strlit("receive data timeout");
    reveal_strlit("receive data fail");
    reveal_strlit("receive unexpected eof");
    reveal_strlit("device already exist");
    reveal_strlit("device not used");
    reveal_strlit("device report error");
    reveal_strlit("unexpected error occured");
    reveal_strlit("server register fail");
    reveal_strlit("configuration invalid");
    reveal_strlit("unknow error");
    reveal_strlit("role type error");
    reveal_strlit("translate init error");
    reveal_strlit("translate register error");
    reveal_strlit("translate check error");
    reveal_strlit("translate inner error");
    reveal_strlit("文件未发现");
    reveal_strlit("操作被拒绝");
    reveal_strlit("远程服务器连接被拒绝");
    reveal_strlit("远程服务器连接被重置");
    reveal_strlit("远程服务器连接被中止");
    reveal_strlit("网络操作失败，没有连接");
    reveal_strlit("Socket地址被占用");
    reveal_strlit("请求的地址不存在");
    reveal_strlit("操作失败，因为管道已关闭");
    reveal_strlit("文件已存在");
    reveal_strlit("操作需要阻塞才能完成");
    reveal_strlit("参数错误");
    reveal_strlit("数据无效");
    reveal_strlit("操作超时");
    reveal_strlit("写入时返回空数据");
    reveal_strlit("操作中断");
    reveal_strlit("其他I/O错误");
    reveal_strlit("无效的消息队列类型");
    reveal_strlit("连接消息队列失败");
    reveal_strlit("订阅消息队列失败");
    reveal_strlit("获取消息失败");
    reveal_strlit("获取消息超时");
    reveal_strlit("无效的消息格式");
    reveal_strlit("无效的消息指令");
    reveal_strlit("无效的规则");
    reveal_strlit("数据库查询参数错误");
    reveal_strlit("数据库返回错误");
    reveal_strlit("没有查询到结果");
    reveal_strlit("数据连接无效");
    reveal_strlit("连接设备失败");
    reveal_strlit("连接设备超时");
    reveal_strlit("设备地址无效");
    reveal_strlit("设备不存在");
    reveal_strlit("不支持的设备类型");
    reveal_strlit("发送数据超时");
    reveal_strlit("发送数据失败");
    reveal_strlit("发送数据无效");
    reveal_strlit("接收数据超时");
    reveal_strlit("接收数据失败");
    reveal_strlit("设备连接异常结束");
    reveal_strlit("设备已存在");
    reveal_strlit("设备不可用");
    reveal_strlit("设备执行指令报错");
    reveal_strlit("发生意外错误");
    reveal_strlit("服务注册失败");
    reveal_strlit("配置无效");
    reveal_strlit("未定义错误");
    reveal_strlit("权限类型不存在");
    reveal_strlit("翻译器初始化错误");
    reveal_strlit("翻译器注册错误");
    reveal_strlit("翻译check错误");
    reveal_strlit("翻译内部错误");
}

/// Every code outside the registry resolves to no reason at all.
pub proof fn lemma_unregistered_reason_none(u: u16)
    requires
        !is_registered(u),
    ensures
        spec_reason_en(u) is None,
        spec_reason_cn(u) is None,
{
}

fn canonical_reason_en(num: u16) -> (r: Option<&'static str>)
    ensures
        match r {
            Some(s) => spec_reason_en(num) == Some(s@),
            None => spec_reason_en(num) is None,
        },
{
    match num {
        1001 => Some("file not found"),
        1002 => Some("permission denied"),
        1003 => Some("connection refused"),
        1004 => Some("connection reset"),
        1005 => Some("connection aborted"),
        1006 => Some("not connected"),
        1007 => Some("address in use"),
        1008 => Some("address not available"),
        1009 => Some("broken pipe"),
        1010 => Some("entity already exists"),
        1011 => Some("operation would block"),
        1012 => Some("invalid input parameter"),
        1013 => Some("invalid data"),
        1014 => Some("timed out"),
        1015 => Some("write zero"),
        1016 => Some("operation interrupted"),
        1017 => Some("other os error"),
        1018 => Some("unexpected end of file"),
        2001 => Some("invalid message quque"),
        2002 => Some("connection message quque error"),
        2003 => Some("subscribe message quque fail"),
        2004 => Some("fetch message fail"),
        2005 => Some("fetch message timeout"),
        2006 => Some("invalid message data"),
        2007 => Some("invalid command"),
        2008 => Some("invalid use rule"),
        3001 => Some("dataBase invalid query"),
        3002 => Some("database error"),
        3003 => Some("result not found"),
        3101 => Some("DataBase Invalid Connection"),
        4001 => Some("connection device error"),
        4002 => Some("connection device timeout"),
        4003 => Some("device address invalid"),
        4004 => Some("device not found"),
        4005 => Some("invalid device type"),
        4006 => Some("send data timeout"),
        4007 => Some("send data fail"),
        4008 => Some("invalid send data"),
        4009 => Some("receive data timeout"),
        4010 => Some("receive data fail"),
        4011 => Some("receive unexpected eof"),
        4012 => Some("device already exist"),
        4013 => Some("device not used"),
        4014 => Some("device report error"),
        5001 => Some("unexpected error occured"),
        5002 => Some("server register fail"),
        5003 => Some("configuration invalid"),
        5100 => Some("unknow error"),
        6001 => Some("role type error"),
        7001 => Some("translate init error"),
        7002 => Some("translate register error"),
        7003 => Some("translate check error"),
        7004 => Some("translate inner error"),
        _ => None,
    }
}

fn canonical_reason_cn(num: u16) -> (r: Option<&'static str>)
    ensures
        match r {
            Some(s) => spec_reason_cn(num) == Some(s@),
            None => spec_reason_cn(num) is None,
        },
{
    match num {
        1001 => Some("文件未发现"),
        1002 => Some("操作被拒绝"),
        1003 => Some("远程服务器连接被拒绝"),
        1004 => Some("远程服务器连接被重置"),
        1005 => Some("远程服务器连接被中止"),
        1006 => Some("网络操作失败，没有连接"),
        1007 => Some("Socket地址被占用"),
        1008 => Some("请求的地址不存在"),
        1009 => Some("操作失败，因为管道已关闭"),
        1010 => Some("文件已存在"),
        1011 => Some("操作需要阻塞才能完成"),
        1012 => Some("参数错误"),
        1013 => Some("数据无效"),
        1014 => Some("操作超时"),
        1015 => Some("写入时返回空数据"),
        1016 => Some("操作中断"),
        1017 => Some("其他I/O错误"),
        1018 => Some("操作需要阻塞才能完成"),
        2001 => Some("无效的消息队列类型"),
        2002 => Some("连接消息队列失败"),
        2003 => Some("订阅消息队列失败"),
        2004 => Some("获取消息失败"),
        2005 => Some("获取消息超时"),
        2006 => Some("无效的消息格式"),
        2007 => Some("无效的消息指令"),
        2008 => Some("无效的规则"),
        3001 => Some("数据库查询参数错误"),
        3002 => Some("数据库返回错误"),
        3003 => Some("没有查询到结果"),
        3101 => Some("数据连接无效"),
        4001 => Some("连接设备失败"),
        4002 => Some("连接设备超时"),
        4003 => Some("设备地址无效"),
        4004 => Some("设备不存在"),
        4005 => Some("不支持的设备类型"),
        4006 => Some("发送数据超时"),
        4007 => Some("发送数据失败"),
        4008 => Some("发送数据无效"),
        4009 => Some("接收数据超时"),
        4010 => Some("接收数据失败"),
        4011 => Some("设备连接异常结束"),
        4012 => Some("设备已存在"),
        4013 => Some("设备不可用"),
        4014 => Some("设备执行指令报错"),
        5001 => Some("发生意外错误"),
        5002 => Some("服务注册失败"),
        5003 => Some("配置无效"),
        5100 => Some("未定义错误"),
        6001 => Some("权限类型不存在"),
        7001 => Some("翻译器初始化错误"),
        7002 => Some("翻译器注册错误"),
        7003 => Some("翻译check错误"),
        7004 => Some("翻译内部错误"),
        _ => None,
    }
}

/// The debug-style rendering of a reason lookup, as the display form
/// embeds it: `Some("...")` or `None`.
pub open spec fn spec_opt_reason_debug(o: Option<Seq<char>>) -> Seq<char> {
    match o {
        Some(s) => "Some(\""@ + s + "\")"@,
        None => "None"@,
    }
}

/// The display form of a coded error: its code in decimal and both of its
/// reason lookups.
pub open spec fn spec_display(code: u16) -> Seq<char> {
    "error code"@ + spec_dec(code as nat) + " reason:"@ + spec_opt_reason_debug(
        spec_reason_en(code),
    ) + " desc:"@ + spec_opt_reason_debug(spec_reason_cn(code))
}

/// A coded error with free-form context: the code is the classification,
/// the description is diagnostic only.
#[derive(Debug, Clone)]
pub struct ExtraDescError {
    pub err: Error,
    pub desc: String,
}

impl Error {
    /// The numeric code itself.
    pub fn code(&self) -> (c: u16)
        ensures
            c == self.0,
    {
        self.0
    }

    /// The registered English reason of this code, if any.
    pub fn reason_en(&self) -> (r: Option<&'static str>)
        ensures
            match r {
                Some(s) => spec_reason_en(self.0) == Some(s@),
                None => spec_reason_en(self.0) is None,
            },
    {
        canonical_reason_en(self.0)
    }

    /// The registered localized reason of this code, if any.
    pub fn reason_cn(&self) -> (r: Option<&'static str>)
        ensures
            match r {
                Some(s) => spec_reason_cn(self.0) == Some(s@),
                None => spec_reason_cn(self.0) is None,
            },
    {
        canonical_reason_cn(self.0)
    }

    /// Re-wraps a lower-level coded failure under this code: the
    /// description is the display form of `error`, so its text is kept
    /// while the classification changes.
    pub fn from_error(self, error: Error) -> (r: ExtraDescError)
        ensures
            r.err == self,
            r.desc@ == spec_display(error.0),
    {
        ExtraDescError { err: self, desc: error.to_display_string() }
    }

    /// Pairs this code with a free-form description, faithfully: the
    /// result carries exactly this code and exactly `desc`.
    pub fn from_desc(self, desc: &str) -> (r: ExtraDescError)
        ensures
            r.err == self,
            r.desc@ == desc@,
    {
        ExtraDescError { err: self, desc: String::from_str(desc) }
    }

    /// The display form of this coded error.
    pub fn to_display_string(&self) -> (r: String)
        ensures
            r@ == spec_display(self.0),
    {
        let mut s = String::new();
        s.append("error code");
        let d = u16_to_dec(self.0);
        s.append(d.as_str());
        s.append(" reason:");
        match self.reason_en() {
            Some(reason) => {
                s.append("Some(\"");
                s.append(reason);
                s.append("\")");
            },
            None => {
                s.append("None");
            },
        }
        s.append(" desc:");
        match self.reason_cn() {
            Some(reason) => {
                s.append("Some(\"");
                s.append(reason);
                s.append("\")");
            },
            None => {
                s.append("None");
            },
        }
        proof {
            assert(s@ =~= spec_display(self.0));
        }
        s
    }
}

/// The display form of a described error: the display form of its code,
/// then its description.
pub open spec fn spec_extra_display(code: u16, desc: Seq<char>) -> Seq<char> {
    "error "@ + spec_display(code) + " desc:"@ + desc
}

impl ExtraDescError {
    /// The default conversion from a bare coded error: the code alone,
    /// with an empty description.
    pub fn from_code(err: Error) -> (r: ExtraDescError)
        ensures
            r.err == err,
            r.desc@ == Seq::<char>::empty(),
    {
        ExtraDescError { err, desc: String::new() }
    }

    /// The display form of this described error.
    pub fn to_display_string(&self) -> (r: String)
        ensures
            r@ == spec_extra_display(self.err.0, self.desc@),
    {
        let mut s = String::new();
        s.append("error ");
        let d = self.err.to_display_string();
        s.append(d.as_str());
        s.append(" desc:");
        s.append(self.desc.as_str());
        proof {
            assert(s@ =~= spec_extra_display(self.err.0, self.desc@));
        }
        s
    }
}

/// The distinguished OS-level I/O failure kinds that the taxonomy maps;
/// `Unknown` stands for every kind not enumerated here.
#[derive(Debug, PartialEq, Eq, Structural, Clone, Copy)]
pub enum IoKind {
    NotFound,
    PermissionDenied,
    ConnectionRefused,
    ConnectionReset,
    ConnectionAborted,
    NotConnected,
    AddrInUse,
    AddrNotAvailable,
    BrokenPipe,
    AlreadyExists,
    WouldBlock,
    InvalidInput,
    InvalidData,
    TimedOut,
    WriteZero,
    Interrupted,
    Other,
    UnexpectedEof,
    Unknown,
}

/// The code of each I/O failure kind: a dedicated code in the I/O band
/// for each enumerated kind, the generic "unknow error" code in the
/// system band for an unenumerated one.
pub open spec fn spec_io_code(k: IoKind) -> u16 {
    match k {
        IoKind::NotFound => FileNotFound,
        IoKind::PermissionDenied => PermissionDenied,
        IoKind::ConnectionRefused => ConnectionRefused,
        IoKind::ConnectionReset => ConnectionReset,
        IoKind::ConnectionAborted => ConnectionAborted,
        IoKind::NotConnected => NotConnected,
        IoKind::AddrInUse => AddrInUse,
        IoKind::AddrNotAvailable => AddrNotAvailable,
        IoKind::BrokenPipe => BrokenPipe,
        IoKind::AlreadyExists => AlreadyExists,
        IoKind::WouldBlock => WouldBlock,
        IoKind::InvalidInput => InvalidInput,
        IoKind::InvalidData => InvalidData,
        IoKind::TimedOut => TimedOut,
        IoKind::WriteZero => WriteZero,
        IoKind::Interrupted => Interrupted,
        IoKind::Other => Other,
        IoKind::UnexpectedEof => UnexpectedEof,
        IoKind::Unknown => UnKnowError,
    }
}

/// The cases of a persistence-layer failure that the taxonomy
/// distinguishes; `Other` stands for every case not enumerated here.
#[derive(Debug, PartialEq, Eq, Structural, Clone, Copy)]
pub enum DbFailure {
    NotFound,
    Database,
    QueryBuilder,
    Other,
}

/// The code of each persistence failure case: "result not found",
/// "database error" and "dataBase invalid query" in the persistence
/// band, the generic "unknow error" code for everything else.
pub open spec fn spec_db_code(f: DbFailure) -> u16 {
    match f {
        DbFailure::NotFound => DataBaseNotFound,
        DbFailure::Database => DataBaseError,
        DbFailure::QueryBuilder => DataBaseInvalidQuery,
        DbFailure::Other => UnKnowError,
    }
}

#[verifier::external_type_specification]
#[verifier::external_body]
pub struct ExJsonError(JsonError);

#[verifier::external_type_specification]
#[verifier::external_body]
pub struct ExTomlDeError(TomlDeError);

#[verifier::external_type_specification]
#[verifier::external_body]
pub struct ExDieselError(DieselError);

/// The rendered message of a configuration decode failure: a function of
/// the error value alone (it is stored plain data in the error).
pub uninterp spec fn toml_msg_of(e: TomlDeError) -> Seq<char>;

/// The case a persistence failure falls under: a function of the error
/// value alone (it is fixed by the variant).
pub uninterp spec fn db_case_of(e: DieselError) -> DbFailure;

/// Relies on serde_json::Error's Display impl: renders the decode
/// failure's message. For an embedded I/O failure the rendering runs an
/// arbitrary boxed impl, so nothing is claimed of the text.
#[verifier::external_body]
fn json_error_message(e: &serde_json::Error) -> String {
    e.to_string()
}

/// Relies on toml::de::Error's Display impl: renders the decode
/// failure's message, which depends on the error value alone.
#[verifier::external_body]
fn toml_error_message(e: &toml::de::Error) -> (r: String)
    ensures
        r@ == toml_msg_of(*e),
{
    e.to_string()
}

/// Relies on diesel::result::Error: tells its variants apart, one arm
/// each — the case is fixed by the variant — and hands on each one's own
/// message (DatabaseErrorInformation::message for a database error, the
/// Display form otherwise). The message comes from a boxed impl anyone
/// may supply, so nothing is claimed of the text.
#[verifier::external_body]
fn diesel_failure_parts(e: &diesel::result::Error) -> (r: (DbFailure, String))
    ensures
        r.0 == db_case_of(*e),
{
    match e {
        diesel::result::Error::DatabaseError(_, info) => (
            DbFailure::Database,
            info.message().to_string(),
        ),
        diesel::result::Error::NotFound => (DbFailure::NotFound, e.to_string()),
        diesel::result::Error::QueryBuilderError(err) => (DbFailure::QueryBuilder, err.to_string()),
        _ => (DbFailure::Other, e.to_string()),
    }
}

impl ExtraDescError {
    /// Adapter for raw I/O failures: each enumerated kind gets its own
    /// code, an unenumerated kind gets the generic "unknow error" code;
    /// the description is the failure's rendered message.
    pub fn from_io_kind(kind: IoKind, desc: &str) -> (r: ExtraDescError)
        ensures
            r.err.0 == spec_io_code(kind),
            r.desc@ == desc@,
    {
        let code: u16 = match kind {
            IoKind::NotFound => FileNotFound,
            IoKind::PermissionDenied => PermissionDenied,
            IoKind::ConnectionRefused => ConnectionRefused,
            IoKind::ConnectionReset => ConnectionReset,
            IoKind::ConnectionAborted => ConnectionAborted,
            IoKind::NotConnected => NotConnected,
            IoKind::AddrInUse => AddrInUse,
            IoKind::AddrNotAvailable => AddrNotAvailable,
            IoKind::BrokenPipe => BrokenPipe,
            IoKind::AlreadyExists => AlreadyExists,
            IoKind::WouldBlock => WouldBlock,
            IoKind::InvalidInput => InvalidInput,
            IoKind::InvalidData => InvalidData,
            IoKind::TimedOut => TimedOut,
            IoKind::WriteZero => WriteZero,
            IoKind::Interrupted => Interrupted,
            IoKind::Other => Other,
            IoKind::UnexpectedEof => UnexpectedEof,
            IoKind::Unknown => UnKnowError,
        };
        Error(code).from_desc(desc)
    }

    /// Adapter for a persistence failure already told apart into its
    /// case: the case picks the code, the description is taken as given.
    pub fn from_db_failure(f: DbFailure, desc: &str) -> (r: ExtraDescError)
        ensures
            r.err.0 == spec_db_code(f),
            r.desc@ == desc@,
    {
        let code: u16 = match f {
            DbFailure::NotFound => DataBaseNotFound,
            DbFailure::Database => DataBaseError,
            DbFailure::QueryBuilder => DataBaseInvalidQuery,
            DbFailure::Other => UnKnowError,
        };
        Error(code).from_desc(desc)
    }

    /// Adapter for structured-data decode failures: always the "invalid
    /// message data" code; the description is whatever message the
    /// decode error rendered.
    pub fn from_json_error(e: &serde_json::Error) -> (r: ExtraDescError)
        ensures
            r.err.0 == InvalidMessageData,
    {
        let msg = json_error_message(e);
        Error(InvalidMessageData).from_desc(msg.as_str())
    }

    /// Adapter for configuration decode failures: always the
    /// "configuration invalid" code; the description is the decode
    /// error's message.
    pub fn from_toml_error(e: &toml::de::Error) -> (r: ExtraDescError)
        ensures
            r.err.0 == ConfigurationInvalid,
            r.desc@ == toml_msg_of(*e),
    {
        let msg = toml_error_message(e);
        Error(ConfigurationInvalid).from_desc(msg.as_str())
    }

    /// Adapter for persistence-layer failures: the case the failure
    /// falls under picks the code; the description is whatever most
    /// specific message the failure rendered.
    pub fn from_diesel_error(e: &diesel::result::Error) -> (r: ExtraDescError)
        ensures
            r.err.0 == spec_db_code(db_case_of(*e)),
    {
        let (kind, msg) = diesel_failure_parts(e);
        ExtraDescError::from_db_failure(kind, msg.as_str())
    }
}

} // verus!
