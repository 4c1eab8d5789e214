use vstd::prelude::*;

verus! {

/// The requests that the battery module answers, each with its wire code.
#[derive(Clone, Copy, Debug, PartialEq, Eq, Structural)]
pub enum Command {
    FailStatus1,
    CellVoltage,
    Current,
    Temperature,
    RemainingCapacity,
    BmInformation,
    FullChargeCapacity,
    FailStatus2,
    StateOfHealth,
    SummaryData,
    VersionInformation,
    DesignCapacity,
}

impl Command {
    /// The byte that names this command on the wire.
    pub open spec fn spec_code(self) -> u8 {
        match self {
            Command::FailStatus1 => 0x01,
            Command::CellVoltage => 0x02,
            Command::Current => 0x03,
            Command::Temperature => 0x04,
            Command::RemainingCapacity => 0x05,
            Command::BmInformation => 0x10,
            Command::FullChargeCapacity => 0x11,
            Command::FailStatus2 => 0x13,
            Command::StateOfHealth => 0x14,
            Command::SummaryData => 0x20,
            Command::VersionInformation => 0x50,
            Command::DesignCapacity => 0x55,
        }
    }

    /// How many data bytes the answer to this command carries.
    pub open spec fn spec_number_of_data(&self) -> usize {
        match *self {
            Command::FailStatus1 => 1,
            Command::CellVoltage => 16,
            Command::Current => 2,
            Command::Temperature => 2,
            Command::RemainingCapacity => 2,
            Command::BmInformation => 29,
            Command::FullChargeCapacity => 2,
            Command::FailStatus2 => 1,
            Command::StateOfHealth => 1,
            Command::SummaryData => 50,
            Command::VersionInformation => 3,
            Command::DesignCapacity => 2,
        }
    }

    /// The name of this command, as the type spells it.
    pub open spec fn spec_name(self) -> Seq<char> {
        match self {
            Command::FailStatus1 => "FailStatus1"@,
            Command::CellVoltage => "CellVoltage"@,
            Command::Current => "Current"@,
            Command::Temperature => "Temperature"@,
            Command::RemainingCapacity => "RemainingCapacity"@,
            Command::BmInformation => "BmInformation"@,
            Command::FullChargeCapacity => "FullChargeCapacity"@,
            Command::FailStatus2 => "FailStatus2"@,
            Command::StateOfHealth => "StateOfHealth"@,
            Command::SummaryData => "SummaryData"@,
            Command::VersionInformation => "VersionInformation"@,
            Command::DesignCapacity => "DesignCapacity"@,
        }
    }

    /// The byte that names this command on the wire.
    #[verifier::when_used_as_spec(spec_code)]
    pub fn code(self) -> (code: u8)
        ensures
            code == self.spec_code(),
    {
        match self {
            Command::FailStatus1 => 0x01,
            Command::CellVoltage => 0x02,
            Command::Current => 0x03,
            Command::Temperature => 0x04,
            Command::RemainingCapacity => 0x05,
            Command::BmInformation => 0x10,
            Command::FullChargeCapacity => 0x11,
            Command::FailStatus2 => 0x13,
            Command::StateOfHealth => 0x14,
            Command::SummaryData => 0x20,
            Command::VersionInformation => 0x50,
            Command::DesignCapacity => 0x55,
        }
    }

    /// The name of this command, as the type spells it.
    pub fn name(self) -> (name: &'static str)
        ensures
            name@ == self.spec_name(),
    {
        match self {
            Command::FailStatus1 => "FailStatus1",
            Command::CellVoltage => "CellVoltage",
            Command::Current => "Current",
            Command::Temperature => "Temperature",
            Command::RemainingCapacity => "RemainingCapacity",
            Command::BmInformation => "BmInformation",
            Command::FullChargeCapacity => "FullChargeCapacity",
            Command::FailStatus2 => "FailStatus2",
            Command::StateOfHealth => "StateOfHealth",
            Command::SummaryData => "SummaryData",
            Command::VersionInformation => "VersionInformation",
            Command::DesignCapacity => "DesignCapacity",
        }
    }

    /// How many data bytes the request for this command carries: none, for
    /// every command.
    pub fn number_of_data_in_command(&self) -> (count: usize)
        ensures
            count == 0,
    {
        0
    }

    /// How many data bytes the answer to this command carries.
    #[verifier::when_used_as_spec(spec_number_of_data)]
    pub fn number_of_data(&self) -> (count: usize)
        ensures
            count == self.spec_number_of_data(),
            0 < count <= 50,
    {
        match *self {
            Self::FailStatus1 => 1,
            Self::CellVoltage => 16,
            Self::Current => 2,
            Self::Temperature => 2,
            Self::RemainingCapacity => 2,
            Self::BmInformation => 29,
            Self::FullChargeCapacity => 2,
            Self::FailStatus2 => 1,
            Self::StateOfHealth => 1,
            Self::SummaryData => 50,
            Self::VersionInformation => 3,
            Self::DesignCapacity => 2,
        }
    }
}

/// No two commands share a wire code.
pub proof fn lemma_code_names_one_command(a: Command, b: Command)
    requires
        a.spec_code() == b.spec_code(),
    ensures
        a == b,
{
}

} // verus!
