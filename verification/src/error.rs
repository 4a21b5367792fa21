use vstd::prelude::*;

verus! {

/// How a refused request is answered at the transport level.
#[derive(Clone, Copy, Debug, PartialEq, Eq, Structural)]
pub enum ErrorStatus {
    /// The request was understood and refused.
    BadRequest,
    /// The resource is not shown to the caller.
    NotFound,
}

/// The answer to a refused request: a status and a human readable message.
#[derive(Debug)]
pub struct ApiError {
    pub status: ErrorStatus,
    pub error: String,
}

/// The outcome of a request handler.
pub type ApiResult<T> = Result<T, ApiError>;

/// Builds the ordinary refusal that carries `message`.
pub fn fail(message: &str) -> (e: ApiError)
    ensures
        e.status == ErrorStatus::BadRequest,
        e.error@ == message@,
{
    ApiError { status: ErrorStatus::BadRequest, error: message.to_owned() }
}

/// Every reason for which the server refuses a request.
#[derive(Clone, Copy, Debug, PartialEq, Eq, Structural)]
pub enum Refusal {
    /// The database lock could not be taken.
    DatabaseUnavailable,
    /// No bearer token came with the request.
    LoginRequired,
    /// The session lookup failed.
    AuthenticationFailed,
    /// The token names no session of an active account.
    SessionExpired,
    /// The username is not 3 to 24 letters, digits, `_` or `-`.
    InvalidUsername,
    /// The password has fewer than 8 bytes.
    PasswordTooShort,
    /// The password could not be hashed.
    HashingFailed,
    /// The display name is blank.
    DisplayNameEmpty,
    /// The accounts could not be read.
    UsersUnreadable,
    /// The account could not be stored (the name is in use).
    UsernameTaken,
    /// The session could not be stored.
    SessionNotCreated,
    /// The first channel could not be created.
    DefaultChannelNotCreated,
    /// The account lookup failed or the stored hash is malformed.
    LoginFailed,
    /// Unknown username or wrong password.
    WrongCredentials,
    /// The account is deactivated.
    AccountDisabled,
    /// The session could not be removed.
    LogoutFailed,
    /// The profile could not be stored.
    ProfileNotUpdated,
    /// The channels could not be read.
    ChannelsUnreadable,
    /// The channel name is blank or longer than 32 bytes.
    InvalidChannelName,
    /// The channel could not be stored (the name is in use).
    ChannelExists,
    /// Messages could not be read.
    MessagesUnreadable,
    /// The message has neither text nor attachment.
    EmptyMessage,
    /// The message could not be stored in the channel.
    ChannelMissing,
    /// The direct message could not be stored.
    RecipientMissing,
    /// No message has that id.
    MessageMissing,
    /// Only the sender may edit a message.
    NotOwnMessage,
    /// The edit could not be stored.
    EditFailed,
    /// Only the sender or an administrator may delete a message.
    DeleteForbidden,
    /// The message could not be deleted.
    DeleteFailed,
    /// The resource is not shown to this caller.
    NotFound,
    /// An administrator may not deactivate their own account.
    CannotDeactivateSelf,
    /// The role is neither `admin` nor `member`.
    InvalidRole,
    /// The account change could not be stored.
    UpdateFailed,
    /// The archive scope is not `all`, `channel` or `dm`.
    InvalidScope,
    /// The archive kind is not `all` or `images`.
    InvalidKind,
    /// The archive could not be counted.
    CountFailed,
    /// The focused message could not be located.
    FocusFailed,
    /// The archive page could not be read.
    ArchiveUnreadable,
    /// The messages could not be deleted.
    ClearFailed,
    /// The search text has fewer than 2 bytes.
    QueryTooShort,
    /// The upload could not be read.
    UploadUnreadable,
    /// The upload holds no file.
    NoFile,
    /// The uploaded file could not be read.
    FileUnreadable,
    /// The uploaded file could not be written.
    FileNotSaved,
    /// Too many friend lookups in the last minute or hour.
    TooManyLookups,
    /// Direct messages and calls need a friendship that no block stands against.
    NotContact,
    /// A friend request between the two accounts is pending.
    RequestPending,
    /// The two accounts are already friends.
    AlreadyFriends,
}

impl Refusal {
    /// The message shown for this refusal.
    pub open spec fn text(self) -> Seq<char> {
        match self {
            Refusal::DatabaseUnavailable => "数据库暂不可用"@,
            Refusal::LoginRequired => "请先登录"@,
            Refusal::AuthenticationFailed => "身份验证失败"@,
            Refusal::SessionExpired => "登录已失效"@,
            Refusal::InvalidUsername => "用户名需为 3–24 位字母、数字、下划线或连字符"@,
            Refusal::PasswordTooShort => "密码至少需要 8 位"@,
            Refusal::HashingFailed => "无法加密密码"@,
            Refusal::DisplayNameEmpty => "显示名称不能为空"@,
            Refusal::UsersUnreadable => "无法读取用户"@,
            Refusal::UsernameTaken => "用户名已被使用"@,
            Refusal::SessionNotCreated => "无法创建会话"@,
            Refusal::DefaultChannelNotCreated => "无法创建默认频道"@,
            Refusal::LoginFailed => "登录失败"@,
            Refusal::WrongCredentials => "用户名或密码不正确"@,
            Refusal::AccountDisabled => "账号已停用"@,
            Refusal::LogoutFailed => "退出失败"@,
            Refusal::ProfileNotUpdated => "无法更新资料"@,
            Refusal::ChannelsUnreadable => "无法读取频道"@,
            Refusal::InvalidChannelName => "频道名称需为 1–32 个字符"@,
            Refusal::ChannelExists => "频道名称已存在"@,
            Refusal::MessagesUnreadable => "无法读取消息"@,
            Refusal::EmptyMessage => "消息不能为空"@,
            Refusal::ChannelMissing => "频道不存在"@,
            Refusal::RecipientMissing => "收件人不存在"@,
            Refusal::MessageMissing => "消息不存在"@,
            Refusal::NotOwnMessage => "只能编辑自己的消息"@,
            Refusal::EditFailed => "编辑失败"@,
            Refusal::DeleteForbidden => "没有权限删除这条消息"@,
            Refusal::DeleteFailed => "删除失败"@,
            Refusal::NotFound => "未找到"@,
            Refusal::CannotDeactivateSelf => "不能停用自己的账号"@,
            Refusal::InvalidRole => "无效角色"@,
            Refusal::UpdateFailed => "更新失败"@,
            Refusal::InvalidScope => "无效记录类型"@,
            Refusal::InvalidKind => "无效内容类型"@,
            Refusal::CountFailed => "无法统计全部记录"@,
            Refusal::FocusFailed => "无法定位聊天记录"@,
            Refusal::ArchiveUnreadable => "无法读取全部记录"@,
            Refusal::ClearFailed => "清空聊天记录失败"@,
            Refusal::QueryTooShort => "至少输入 2 个字符"@,
            Refusal::UploadUnreadable => "无法读取上传内容"@,
            Refusal::NoFile => "请选择文件"@,
            Refusal::FileUnreadable => "无法读取文件"@,
            Refusal::FileNotSaved => "无法保存文件"@,
            Refusal::TooManyLookups => "查询过于频繁，请稍后再试"@,
            Refusal::NotContact => "只能与好友私聊或通话"@,
            Refusal::RequestPending => "已有待处理的好友申请"@,
            Refusal::AlreadyFriends => "已经是好友"@,
        }
    }

    /// The status this refusal is answered with.
    pub open spec fn status(self) -> ErrorStatus {
        if self == Refusal::NotFound {
            ErrorStatus::NotFound
        } else {
            ErrorStatus::BadRequest
        }
    }

    /// The message shown for this refusal.
    pub fn message(&self) -> (m: &'static str)
        ensures
            m@ == self.text(),
    {
        match self {
            Refusal::DatabaseUnavailable => "数据库暂不可用",
            Refusal::LoginRequired => "请先登录",
            Refusal::AuthenticationFailed => "身份验证失败",
            Refusal::SessionExpired => "登录已失效",
            Refusal::InvalidUsername => "用户名需为 3–24 位字母、数字、下划线或连字符",
            Refusal::PasswordTooShort => "密码至少需要 8 位",
            Refusal::HashingFailed => "无法加密密码",
            Refusal::DisplayNameEmpty => "显示名称不能为空",
            Refusal::UsersUnreadable => "无法读取用户",
            Refusal::UsernameTaken => "用户名已被使用",
            Refusal::SessionNotCreated => "无法创建会话",
            Refusal::DefaultChannelNotCreated => "无法创建默认频道",
            Refusal::LoginFailed => "登录失败",
            Refusal::WrongCredentials => "用户名或密码不正确",
            Refusal::AccountDisabled => "账号已停用",
            Refusal::LogoutFailed => "退出失败",
            Refusal::ProfileNotUpdated => "无法更新资料",
            Refusal::ChannelsUnreadable => "无法读取频道",
            Refusal::InvalidChannelName => "频道名称需为 1–32 个字符",
            Refusal::ChannelExists => "频道名称已存在",
            Refusal::MessagesUnreadable => "无法读取消息",
            Refusal::EmptyMessage => "消息不能为空",
            Refusal::ChannelMissing => "频道不存在",
            Refusal::RecipientMissing => "收件人不存在",
            Refusal::MessageMissing => "消息不存在",
            Refusal::NotOwnMessage => "只能编辑自己的消息",
            Refusal::EditFailed => "编辑失败",
            Refusal::DeleteForbidden => "没有权限删除这条消息",
            Refusal::DeleteFailed => "删除失败",
            Refusal::NotFound => "未找到",
            Refusal::CannotDeactivateSelf => "不能停用自己的账号",
            Refusal::InvalidRole => "无效角色",
            Refusal::UpdateFailed => "更新失败",
            Refusal::InvalidScope => "无效记录类型",
            Refusal::InvalidKind => "无效内容类型",
            Refusal::CountFailed => "无法统计全部记录",
            Refusal::FocusFailed => "无法定位聊天记录",
            Refusal::ArchiveUnreadable => "无法读取全部记录",
            Refusal::ClearFailed => "清空聊天记录失败",
            Refusal::QueryTooShort => "至少输入 2 个字符",
            Refusal::UploadUnreadable => "无法读取上传内容",
            Refusal::NoFile => "请选择文件",
            Refusal::FileUnreadable => "无法读取文件",
            Refusal::FileNotSaved => "无法保存文件",
            Refusal::TooManyLookups => "查询过于频繁，请稍后再试",
            Refusal::NotContact => "只能与好友私聊或通话",
            Refusal::RequestPending => "已有待处理的好友申请",
            Refusal::AlreadyFriends => "已经是好友",
        }
    }
}

/// Whether `e` is the answer for refusal `r`.
pub open spec fn refuses(e: ApiError, r: Refusal) -> bool {
    e.status == r.status() && e.error@ == r.text()
}

/// Whether `res` failed with refusal `r`.
pub open spec fn refused<T>(res: ApiResult<T>, r: Refusal) -> bool {
    res matches Err(e) && refuses(e, r)
}

/// Whether `res` is what `decision` says: its value, or the answer for its refusal.
pub open spec fn answers<T>(res: ApiResult<T>, decision: Result<T, Refusal>) -> bool {
    match decision {
        Ok(v) => res == Ok::<T, ApiError>(v),
        Err(f) => refused(res, f),
    }
}

/// The answer for refusal `r`.
pub fn refuse(r: Refusal) -> (e: ApiError)
    ensures
        refuses(e, r),
{
    let status = if r == Refusal::NotFound {
        ErrorStatus::NotFound
    } else {
        ErrorStatus::BadRequest
    };
    ApiError { status, error: r.message().to_owned() }
}

} // verus!
